//! The identity-oracle endpoint rule: which host a resolution must query,
//! spelled out for each deployment case.

use flair::oracle::get_url;

#[test]
fn remote_caller_queries_their_home_instance() {
    let url = get_url(&8536, "tok3n", "local.example", "remote.example", &false);
    assert_eq!(url, "https://remote.example/api/v3/site?auth=tok3n");
    // the docker flag plays no role for a remote caller
    let url = get_url(&8536, "tok3n", "local.example", "remote.example", &true);
    assert_eq!(url, "https://remote.example/api/v3/site?auth=tok3n");
}

#[test]
fn local_caller_under_docker_queries_the_service_host() {
    let url = get_url(&8536, "tok3n", "local.example", "local.example", &true);
    assert_eq!(url, "http://lemmy:8536/api/v3/site?auth=tok3n");
}

#[test]
fn local_caller_on_bare_metal_queries_loopback() {
    let url = get_url(&8536, "tok3n", "local.example", "local.example", &false);
    assert_eq!(url, "http://127.0.0.1:8536/api/v3/site?auth=tok3n");
}

#[test]
fn ports_render_in_full_decimal() {
    let url = get_url(&0, "t", "d", "d", &true);
    assert_eq!(url, "http://lemmy:0/api/v3/site?auth=t");
    let url = get_url(&7, "t", "d", "d", &true);
    assert_eq!(url, "http://lemmy:7/api/v3/site?auth=t");
    let url = get_url(&80, "t", "d", "d", &true);
    assert_eq!(url, "http://lemmy:80/api/v3/site?auth=t");
    let url = get_url(&65535, "t", "d", "d", &true);
    assert_eq!(url, "http://lemmy:65535/api/v3/site?auth=t");
    let url = get_url(&10001, "t", "d", "d", &false);
    assert_eq!(url, "http://127.0.0.1:10001/api/v3/site?auth=t");
}

#[test]
fn empty_credential_still_forms_the_url() {
    let url = get_url(&8536, "", "local.example", "remote.example", &false);
    assert_eq!(url, "https://remote.example/api/v3/site?auth=");
}
