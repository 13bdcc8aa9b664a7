use solai_coder::monitor::monitor_endpoint;
use solai_coder::monitor::monitor_item_name;
use solai_coder::monitor::monitor_setup_confirmation;
use solai_coder::monitor::monitor_setup_items;
use solai_coder::monitor::parse_monitor_line_items;
use solai_coder::monitor::MonitorLineItem;
use solai_coder::monitor::gpu_model_label;
use solai_coder::monitor::ollama_status_label;

#[test]
fn monitor_endpoint_uses_provider_host_and_monitor_port() {
    assert_eq!(
        monitor_endpoint("http://192.168.1.20:11434/v1"),
        Some("http://192.168.1.20:9898/metrics".to_string())
    );
}

#[test]
fn monitor_endpoint_drops_query_and_fragment() {
    assert_eq!(
        monitor_endpoint("https://gpu.example.com/v1?x=1#frag"),
        Some("https://gpu.example.com:9898/metrics".to_string())
    );
}

#[test]
fn monitor_endpoint_rejects_unparseable_or_hostless_urls() {
    assert_eq!(monitor_endpoint("not a url"), None);
    assert_eq!(monitor_endpoint("mailto:someone@example.com"), None);
}

#[test]
fn item_ids_round_trip() {
    for item in MonitorLineItem::all() {
        assert_eq!(MonitorLineItem::from_id(item.as_str()), Some(item));
    }
    assert_eq!(MonitorLineItem::from_id("gpu-model"), Some(MonitorLineItem::GpuModel));
    assert_eq!(MonitorLineItem::from_id("GPU"), None);
    assert_eq!(monitor_item_name(MonitorLineItem::GpuCpu), "GPU x CPU");
    assert_eq!(MonitorLineItem::Context.description(), "Ollama context size and context limit");
}

#[test]
fn parse_reports_each_unknown_id_once_quoted() {
    let ids = vec![
        "cpu".to_string(),
        "bogus".to_string(),
        "ram".to_string(),
        "bogus".to_string(),
        "other".to_string(),
        "cpu".to_string(),
    ];
    let (items, invalid) = parse_monitor_line_items(ids);
    assert_eq!(
        items,
        vec![MonitorLineItem::Cpu, MonitorLineItem::Ram, MonitorLineItem::Cpu]
    );
    assert_eq!(invalid, vec!["\"bogus\"".to_string(), "\"other\"".to_string()]);
}

#[test]
fn setup_items_list_selected_first_then_the_rest() {
    let configured = vec!["vram".to_string(), "nope".to_string(), "cpu".to_string(), "vram".to_string()];
    let rows = monitor_setup_items(Some(&configured), true);
    assert_eq!(rows.len(), 11);
    assert_eq!(rows[0].id, "status-line-2-use-theme-colors");
    assert!(rows[0].enabled);
    assert!(rows[0].section_break_after);
    assert_eq!(rows[1].id, "vram");
    assert!(rows[1].enabled);
    assert_eq!(rows[2].id, "cpu");
    assert!(rows[2].enabled);
    let rest: Vec<&str> = rows[3..].iter().map(|r| r.id.as_str()).collect();
    assert_eq!(
        rest,
        vec!["ram", "swap", "gpu", "gpu-model", "gpu-temp", "status", "context", "gpu-cpu"]
    );
    assert!(rows[3..].iter().all(|r| !r.enabled && r.orderable));
    assert_eq!(rows[1].name, "VRAM");
    assert_eq!(rows[1].description.as_deref(), Some("GPU VRAM usage"));
}

#[test]
fn setup_confirmation_reads_items_and_theme_toggle() {
    let ids = vec![
        "status-line-2-use-theme-colors".to_string(),
        "gpu".to_string(),
        "junk".to_string(),
        "swap".to_string(),
    ];
    let (items, theme) = monitor_setup_confirmation(&ids);
    assert_eq!(items, vec!["gpu".to_string(), "swap".to_string()]);
    assert!(theme);
    let (items, theme) = monitor_setup_confirmation(&vec!["cpu".to_string()]);
    assert_eq!(items, vec!["cpu".to_string()]);
    assert!(!theme);
}

#[test]
fn gpu_model_and_status_labels() {
    assert_eq!(gpu_model_label(Some("NVIDIA"), Some("RTX 4090")), "NVIDIA RTX 4090");
    assert_eq!(gpu_model_label(Some("NVIDIA"), Some("")), "NVIDIA");
    assert_eq!(gpu_model_label(Some(""), Some("RTX 4090")), "RTX 4090");
    assert_eq!(gpu_model_label(None, None), "n/a");
    assert_eq!(ollama_status_label(true, false), "ACTIVE");
    assert_eq!(ollama_status_label(false, true), "ACTIVE");
    assert_eq!(ollama_status_label(false, false), "RUNNING");
}

#[test]
fn confirming_the_setup_view_unchanged_gives_back_the_configuration() {
    let configured = vec![
        "gpu".to_string(),
        "unknown".to_string(),
        "ram".to_string(),
        "gpu".to_string(),
    ];
    let rows = monitor_setup_items(Some(&configured), false);
    let checked: Vec<String> = rows.iter().filter(|r| r.enabled).map(|r| r.id.clone()).collect();
    let (items, theme) = monitor_setup_confirmation(&checked);
    assert_eq!(items, vec!["gpu".to_string(), "ram".to_string()]);
    assert!(!theme);
    let rows = monitor_setup_items(None, true);
    let checked: Vec<String> = rows.iter().filter(|r| r.enabled).map(|r| r.id.clone()).collect();
    let (items, theme) = monitor_setup_confirmation(&checked);
    assert!(items.is_empty());
    assert!(theme);
}
