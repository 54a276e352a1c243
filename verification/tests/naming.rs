use spider::auth::basic_auth_header;
use spider::dest::build_upload_url;
use spider::dest::get_filename_from_url;

#[test]
fn last_segment_becomes_name() {
    assert_eq!(get_filename_from_url("http://src/a.png"), "/a.png");
}

#[test]
fn short_path_keeps_its_segment() {
    assert_eq!(get_filename_from_url("http://src/b"), "/b");
}

#[test]
fn deep_path_takes_final_segment() {
    assert_eq!(get_filename_from_url("http://example.com/x/y/z.txt"), "/z.txt");
}

#[test]
fn query_and_fragment_do_not_join_the_name() {
    assert_eq!(get_filename_from_url("http://example.com/pic.jpg?s=1#top"), "/pic.jpg");
}

fn assert_fallback_shape(name: &str) {
    assert_eq!(name.len(), 46);
    assert!(name.starts_with("/file_"));
    assert!(name.ends_with(".dat"));
}

#[test]
fn trailing_slash_means_fallback() {
    assert_fallback_shape(&get_filename_from_url("http://src/"));
}

#[test]
fn empty_final_segment_means_fallback() {
    assert_fallback_shape(&get_filename_from_url("http://src/dir/"));
}

#[test]
fn unparsable_text_means_fallback() {
    assert_fallback_shape(&get_filename_from_url("not a url"));
}

#[test]
fn cannot_be_a_base_means_fallback() {
    assert_fallback_shape(&get_filename_from_url("mailto:someone@example.com"));
}

#[test]
fn fallback_names_differ_between_calls() {
    let a = get_filename_from_url("http://src/");
    let b = get_filename_from_url("http://src/");
    assert_ne!(a, b);
}

#[test]
fn upload_url_joins_endpoint_and_name() {
    assert_eq!(
        build_upload_url("http://nas:5005/remote.php/dav/files/user/", "/a.png"),
        "http://nas:5005/remote.php/dav/files/user/a.png"
    );
}

#[test]
fn upload_url_trims_every_trailing_slash() {
    assert_eq!(build_upload_url("http://nas/dav///", "/b"), "http://nas/dav/b");
    assert_eq!(build_upload_url("http://nas/dav", "/b"), "http://nas/dav/b");
}

#[test]
fn auth_header_is_basic_base64_of_user_colon_pass() {
    assert_eq!(basic_auth_header("admin", "password"), "Basic YWRtaW46cGFzc3dvcmQ=");
}

#[test]
fn auth_header_of_empty_credentials() {
    assert_eq!(basic_auth_header("", ""), "Basic Og==");
}
