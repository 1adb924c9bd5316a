// Test: business hours regions have the expected structure

use fast_time_server::resources::get_business_hours;

#[test]
fn test_business_hours_regions() {
    let hours = get_business_hours();
    let regions = hours
        .get("regions")
        .and_then(|v| v.as_object())
        .expect("regions should be an object");

    // Test each region has required fields
    for (region_name, region_data) in regions {
        assert!(region_data.is_object(), "{} should be an object", region_name);

        assert!(region_data.contains_key("standard_hours"), "{} should have standard_hours", region_name);
        assert!(region_data.contains_key("lunch_break"), "{} should have lunch_break", region_name);
        assert!(region_data.contains_key("working_days"), "{} should have working_days", region_name);

        // Verify types
        assert!(
            region_data.get("standard_hours").unwrap().is_string(),
            "{} standard_hours should be string",
            region_name
        );
        assert!(
            region_data.get("lunch_break").unwrap().is_string(),
            "{} lunch_break should be string",
            region_name
        );
        assert!(
            region_data.get("working_days").unwrap().is_array(),
            "{} working_days should be array",
            region_name
        );
    }
}
