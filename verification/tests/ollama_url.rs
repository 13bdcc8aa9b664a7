use solai_coder::ollama_url::base_url_to_host_root;
use solai_coder::ollama_url::is_local_ollama_base_url;
use solai_coder::ollama_url::is_openai_compatible_base_url;

#[test]
fn test_base_url_to_host_root() {
    assert_eq!(
        base_url_to_host_root("http://localhost:11434/v1"),
        "http://localhost:11434"
    );
    assert_eq!(
        base_url_to_host_root("http://localhost:11434"),
        "http://localhost:11434"
    );
    assert_eq!(
        base_url_to_host_root("http://localhost:11434/"),
        "http://localhost:11434"
    );
}

#[test]
fn test_is_local_ollama_base_url() {
    assert!(is_local_ollama_base_url("http://localhost:11434/v1"));
    assert!(is_local_ollama_base_url("http://127.0.0.1:11434/v1"));
    assert!(is_local_ollama_base_url("http://[::1]:11434/v1"));
    assert!(!is_local_ollama_base_url("http://192.168.100.33:11434/v1"));
}

#[test]
fn host_root_strips_repeated_v1_segments_and_slashes() {
    assert_eq!(base_url_to_host_root("http://h:1/v1/v1//"), "http://h:1");
    assert_eq!(base_url_to_host_root("http://h:1/api/"), "http://h:1/api");
    assert_eq!(base_url_to_host_root(""), "");
}

#[test]
fn local_detection_is_case_insensitive_for_localhost_only() {
    assert!(is_local_ollama_base_url("http://LocalHost:11434"));
    assert!(is_local_ollama_base_url("localhost"));
    assert!(!is_local_ollama_base_url("http://localhost.example.com:11434"));
    assert!(!is_local_ollama_base_url("http://[::2]:11434"));
}

#[test]
fn openai_compatible_base_urls_end_in_v1() {
    assert!(is_openai_compatible_base_url("http://127.0.0.1:1234/v1"));
    assert!(is_openai_compatible_base_url("http://127.0.0.1:1234/v1///"));
    assert!(!is_openai_compatible_base_url("http://127.0.0.1:1234"));
    assert!(!is_openai_compatible_base_url("http://127.0.0.1:1234/v10"));
}

#[test]
fn host_root_round_trips_through_v1_and_trailing_slashes() {
    let root = "http://gpu-box:11434";
    for slashes in 0..4 {
        let tail = "/".repeat(slashes);
        assert_eq!(base_url_to_host_root(&format!("{root}/v1{tail}")), root);
        assert_eq!(base_url_to_host_root(&format!("{root}{tail}")), root);
    }
}
