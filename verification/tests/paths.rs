use tenderly_client::paths::{
    encode_path_segment, shared_simulation_url, simulation_info_path, simulation_path,
    simulation_share_path, simulation_unshare_path, trace_path,
};

#[test]
fn test_encode_keeps_unreserved_characters() {
    assert_eq!(encode_path_segment("abc-DEF_0.9~"), "abc-DEF_0.9~");
    assert_eq!(encode_path_segment(""), "");
}

#[test]
fn test_encode_escapes_reserved_characters() {
    assert_eq!(encode_path_segment("a/b c"), "a%2Fb%20c");
    assert_eq!(encode_path_segment("a?b#c"), "a%3Fb%23c");
    assert_eq!(encode_path_segment("%"), "%25");
}

#[test]
fn test_encode_escapes_non_ascii_as_utf8_bytes() {
    assert_eq!(encode_path_segment("\u{e9}"), "%C3%A9");
}

#[test]
fn test_encoded_id_keeps_segment_count() {
    // An id holding `/` and a space must not split the route further.
    let path = simulation_path("a/b c");
    assert_eq!(path, "/simulations/a%2Fb%20c");
    assert_eq!(path.chars().filter(|c| *c == '/').count(), 2);
}

#[test]
fn test_simulation_routes() {
    assert_eq!(simulation_path("sim1"), "/simulations/sim1");
    assert_eq!(simulation_info_path("sim1"), "/simulations/sim1/info");
    assert_eq!(simulation_share_path("sim1"), "/simulations/sim1/share");
    assert_eq!(simulation_unshare_path("sim1"), "/simulations/sim1/unshare");
    assert_eq!(trace_path("0xhash"), "/trace/0xhash");
}

#[test]
fn test_shared_simulation_url() {
    assert_eq!(
        shared_simulation_url("abc"),
        "https://dashboard.tenderly.co/shared/simulation/abc"
    );
    assert_eq!(
        shared_simulation_url("a/b"),
        "https://dashboard.tenderly.co/shared/simulation/a%2Fb"
    );
}
