use quantum_sdk::compute::provision_path;

#[test]
fn confirm_flag_rides_the_query_string() {
    assert_eq!(
        provision_path(true),
        "/qai/v1/compute/provision?confirm=yes"
    );
    assert_eq!(provision_path(false), "/qai/v1/compute/provision");
}
