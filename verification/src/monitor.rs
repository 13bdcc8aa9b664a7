//! The items of the monitor status line, their configuration, and the
//! metrics endpoint of the monitor daemon.

use vstd::prelude::*;

use crate::text::{chars_eq, chars_of, string_of};
use crate::weburl::{
    url_clear_fragment_result, url_clear_query_result, url_parse_result, url_set_path_result,
    url_set_port_result, WebUrl,
};

verus! {

/// The port the monitor daemon listens on.
pub const MONITOR_PORT: u16 = 9898;

/// One metric that the monitor status line can show.
#[derive(Clone, Copy, Debug, PartialEq, Eq, Structural)]
pub enum MonitorLineItem {
    Cpu,
    Ram,
    Swap,
    Gpu,
    GpuModel,
    Vram,
    GpuTemp,
    Status,
    Context,
    GpuCpu,
}

/// The kebab-case identifier of an item.
pub open spec fn spec_item_id(item: MonitorLineItem) -> Seq<char> {
    match item {
        MonitorLineItem::Cpu => "cpu"@,
        MonitorLineItem::Ram => "ram"@,
        MonitorLineItem::Swap => "swap"@,
        MonitorLineItem::Gpu => "gpu"@,
        MonitorLineItem::GpuModel => "gpu-model"@,
        MonitorLineItem::Vram => "vram"@,
        MonitorLineItem::GpuTemp => "gpu-temp"@,
        MonitorLineItem::Status => "status"@,
        MonitorLineItem::Context => "context"@,
        MonitorLineItem::GpuCpu => "gpu-cpu"@,
    }
}

/// The item whose identifier is exactly `id`.
pub open spec fn spec_item_from_id(id: Seq<char>) -> Option<MonitorLineItem> {
    if id == "cpu"@ {
        Some(MonitorLineItem::Cpu)
    } else if id == "ram"@ {
        Some(MonitorLineItem::Ram)
    } else if id == "swap"@ {
        Some(MonitorLineItem::Swap)
    } else if id == "gpu"@ {
        Some(MonitorLineItem::Gpu)
    } else if id == "gpu-model"@ {
        Some(MonitorLineItem::GpuModel)
    } else if id == "vram"@ {
        Some(MonitorLineItem::Vram)
    } else if id == "gpu-temp"@ {
        Some(MonitorLineItem::GpuTemp)
    } else if id == "status"@ {
        Some(MonitorLineItem::Status)
    } else if id == "context"@ {
        Some(MonitorLineItem::Context)
    } else if id == "gpu-cpu"@ {
        Some(MonitorLineItem::GpuCpu)
    } else {
        None
    }
}

/// The description shown beside an item.
pub open spec fn spec_item_description(item: MonitorLineItem) -> Seq<char> {
    match item {
        MonitorLineItem::Cpu => "CPU usage"@,
        MonitorLineItem::Ram => "System RAM usage"@,
        MonitorLineItem::Swap => "Swap usage"@,
        MonitorLineItem::Gpu => "GPU usage"@,
        MonitorLineItem::GpuModel => "GPU vendor and model"@,
        MonitorLineItem::Vram => "GPU VRAM usage"@,
        MonitorLineItem::GpuTemp => "GPU temperature"@,
        MonitorLineItem::Status => "Ollama runtime status"@,
        MonitorLineItem::Context => "Ollama context size and context limit"@,
        MonitorLineItem::GpuCpu => "Ollama GPU versus CPU split"@,
    }
}

/// The short name shown for an item in the setup view.
pub open spec fn spec_item_name(item: MonitorLineItem) -> Seq<char> {
    match item {
        MonitorLineItem::Cpu => "CPU"@,
        MonitorLineItem::Ram => "RAM"@,
        MonitorLineItem::Swap => "Swap"@,
        MonitorLineItem::Gpu => "GPU"@,
        MonitorLineItem::GpuModel => "GPU model"@,
        MonitorLineItem::Vram => "VRAM"@,
        MonitorLineItem::GpuTemp => "GPU temp"@,
        MonitorLineItem::Status => "Status"@,
        MonitorLineItem::Context => "Context size"@,
        MonitorLineItem::GpuCpu => "GPU x CPU"@,
    }
}

/// Every item, in declaration order.
pub open spec fn spec_all_items() -> Seq<MonitorLineItem> {
    seq![
        MonitorLineItem::Cpu,
        MonitorLineItem::Ram,
        MonitorLineItem::Swap,
        MonitorLineItem::Gpu,
        MonitorLineItem::GpuModel,
        MonitorLineItem::Vram,
        MonitorLineItem::GpuTemp,
        MonitorLineItem::Status,
        MonitorLineItem::Context,
        MonitorLineItem::GpuCpu,
    ]
}

impl MonitorLineItem {
    /// The kebab-case identifier of this item.
    pub fn as_str(self) -> (r: &'static str)
        ensures
            r@ == spec_item_id(self),
    {
        match self {
            MonitorLineItem::Cpu => "cpu",
            MonitorLineItem::Ram => "ram",
            MonitorLineItem::Swap => "swap",
            MonitorLineItem::Gpu => "gpu",
            MonitorLineItem::GpuModel => "gpu-model",
            MonitorLineItem::Vram => "vram",
            MonitorLineItem::GpuTemp => "gpu-temp",
            MonitorLineItem::Status => "status",
            MonitorLineItem::Context => "context",
            MonitorLineItem::GpuCpu => "gpu-cpu",
        }
    }

    /// The item named by a kebab-case identifier (exact match).
    pub fn from_id(id: &str) -> (r: Option<MonitorLineItem>)
        ensures
            r == spec_item_from_id(id@),
    {
        let s = chars_of(id);
        if chars_eq(&s, &chars_of("cpu")) {
            Some(MonitorLineItem::Cpu)
        } else if chars_eq(&s, &chars_of("ram")) {
            Some(MonitorLineItem::Ram)
        } else if chars_eq(&s, &chars_of("swap")) {
            Some(MonitorLineItem::Swap)
        } else if chars_eq(&s, &chars_of("gpu")) {
            Some(MonitorLineItem::Gpu)
        } else if chars_eq(&s, &chars_of("gpu-model")) {
            Some(MonitorLineItem::GpuModel)
        } else if chars_eq(&s, &chars_of("vram")) {
            Some(MonitorLineItem::Vram)
        } else if chars_eq(&s, &chars_of("gpu-temp")) {
            Some(MonitorLineItem::GpuTemp)
        } else if chars_eq(&s, &chars_of("status")) {
            Some(MonitorLineItem::Status)
        } else if chars_eq(&s, &chars_of("context")) {
            Some(MonitorLineItem::Context)
        } else if chars_eq(&s, &chars_of("gpu-cpu")) {
            Some(MonitorLineItem::GpuCpu)
        } else {
            None
        }
    }

    /// What the item shows.
    pub fn description(self) -> (r: &'static str)
        ensures
            r@ == spec_item_description(self),
    {
        match self {
            MonitorLineItem::Cpu => "CPU usage",
            MonitorLineItem::Ram => "System RAM usage",
            MonitorLineItem::Swap => "Swap usage",
            MonitorLineItem::Gpu => "GPU usage",
            MonitorLineItem::GpuModel => "GPU vendor and model",
            MonitorLineItem::Vram => "GPU VRAM usage",
            MonitorLineItem::GpuTemp => "GPU temperature",
            MonitorLineItem::Status => "Ollama runtime status",
            MonitorLineItem::Context => "Ollama context size and context limit",
            MonitorLineItem::GpuCpu => "Ollama GPU versus CPU split",
        }
    }

    /// Every item, in declaration order.
    pub fn all() -> (r: Vec<MonitorLineItem>)
        ensures
            r@ == spec_all_items(),
    {
        let r = vec![
            MonitorLineItem::Cpu,
            MonitorLineItem::Ram,
            MonitorLineItem::Swap,
            MonitorLineItem::Gpu,
            MonitorLineItem::GpuModel,
            MonitorLineItem::Vram,
            MonitorLineItem::GpuTemp,
            MonitorLineItem::Status,
            MonitorLineItem::Context,
            MonitorLineItem::GpuCpu,
        ];
        assert(r@ =~= spec_all_items());
        r
    }
}

/// The short name of an item in the setup view.
pub fn monitor_item_name(item: MonitorLineItem) -> (r: &'static str)
    ensures
        r@ == spec_item_name(item),
{
    match item {
        MonitorLineItem::Cpu => "CPU",
        MonitorLineItem::Ram => "RAM",
        MonitorLineItem::Swap => "Swap",
        MonitorLineItem::Gpu => "GPU",
        MonitorLineItem::GpuModel => "GPU model",
        MonitorLineItem::Vram => "VRAM",
        MonitorLineItem::GpuTemp => "GPU temp",
        MonitorLineItem::Status => "Status",
        MonitorLineItem::Context => "Context size",
        MonitorLineItem::GpuCpu => "GPU x CPU",
    }
}

/// The identifiers of the configured items, as text.
pub open spec fn ids_view(ids: Seq<String>) -> Seq<Seq<char>> {
    ids.map_values(|s: String| s@)
}

/// The recognised items among `ids`, in order.
pub open spec fn spec_parsed_items(ids: Seq<Seq<char>>) -> Seq<MonitorLineItem>
    decreases ids.len(),
{
    if ids.len() == 0 {
        Seq::empty()
    } else {
        let rest = spec_parsed_items(ids.drop_last());
        match spec_item_from_id(ids.last()) {
            Some(item) => rest.push(item),
            None => rest,
        }
    }
}

/// An identifier in double quotes.
pub open spec fn quoted(id: Seq<char>) -> Seq<char> {
    seq!['"'] + id + seq!['"']
}

/// The unrecognised identifiers among `ids`, quoted, each reported once at
/// its first occurrence.
pub open spec fn spec_invalid_ids(ids: Seq<Seq<char>>) -> Seq<Seq<char>>
    decreases ids.len(),
{
    if ids.len() == 0 {
        Seq::empty()
    } else {
        let rest = spec_invalid_ids(ids.drop_last());
        let id = ids.last();
        if spec_item_from_id(id) is None && !ids.drop_last().contains(id) {
            rest.push(quoted(id))
        } else {
            rest
        }
    }
}

/// Splits configured identifiers into the items they name and the
/// unrecognised identifiers, quoted and without repetitions.
pub fn parse_monitor_line_items(ids: Vec<String>) -> (r: (Vec<MonitorLineItem>, Vec<String>))
    ensures
        r.0@ == spec_parsed_items(ids_view(ids@)),
        ids_view(r.1@) == spec_invalid_ids(ids_view(ids@)),
{
    let ghost all = ids_view(ids@);
    let mut items: Vec<MonitorLineItem> = Vec::new();
    let mut invalid: Vec<String> = Vec::new();
    let mut seen: Vec<String> = Vec::new();
    let n = ids.len();
    let mut i: usize = 0;
    while i < n
        invariant
            n == ids@.len(),
            all == ids_view(ids@),
            i <= n,
            items@ == spec_parsed_items(all.take(i as int)),
            ids_view(invalid@) == spec_invalid_ids(all.take(i as int)),
            forall|x: Seq<char>|
                ids_view(seen@).contains(x) <==> (all.take(i as int).contains(x)
                    && spec_item_from_id(x) is None),
        decreases n - i,
    {
        let id = &ids[i];
        let ghost pre = all.take(i as int);
        let ghost cur = all.take(i + 1);
        let ghost seen0 = ids_view(seen@);
        assert(cur.drop_last() =~= pre);
        assert(all.take(i + 1).last() == id@);
        match MonitorLineItem::from_id(id.as_str()) {
            Some(item) => {
                items.push(item);
                proof {
                    assert(ids_view(seen@) == seen0);
                    assert forall|x: Seq<char>|
                        ids_view(seen@).contains(x) <==> (cur.contains(x)
                            && spec_item_from_id(x) is None) by {
                        if cur.contains(x) && spec_item_from_id(x) is None {
                            let k = choose|k: int| 0 <= k < i + 1 && cur[k] == x;
                            if k < i {
                                assert(pre[k] == x);
                                assert(pre.contains(x));
                            }
                        }
                        if seen0.contains(x) {
                            assert(pre.contains(x));
                            let k = choose|k: int| 0 <= k < i && pre[k] == x;
                            assert(cur[k] == x);
                        }
                    }
                }
            },
            None => {
                let already = contains_string(&seen, id);
                if !already {
                    let mut q = String::from_str("\"");
                    q.append(id.as_str());
                    q.append("\"");
                    proof {
                        reveal_strlit("\"");
                        assert(q@ =~= quoted(id@));
                    }
                    let ghost before_inv = invalid@;
                    invalid.push(q);
                    assert(ids_view(invalid@) =~= ids_view(before_inv).push(quoted(id@)));
                    let ghost before_seen = seen@;
                    seen.push(id.clone());
                    assert(ids_view(seen@) =~= ids_view(before_seen).push(id@));
                }
                proof {
                    assert(already ==> ids_view(seen@) == seen0);
                    assert(!already ==> ids_view(seen@) == seen0.push(id@));
                    assert forall|x: Seq<char>|
                        ids_view(seen@).contains(x) <==> (cur.contains(x)
                            && spec_item_from_id(x) is None) by {
                        if cur.contains(x) && spec_item_from_id(x) is None {
                            let k = choose|k: int| 0 <= k < i + 1 && cur[k] == x;
                            if k < i {
                                assert(pre[k] == x);
                                assert(seen0.contains(x));
                                if !already {
                                    let j = choose|j: int| 0 <= j < seen0.len() && seen0[j] == x;
                                    assert(ids_view(seen@)[j] == x);
                                }
                            } else {
                                assert(x == id@);
                                if !already {
                                    assert(ids_view(seen@)[seen0.len() as int] == x);
                                }
                            }
                        }
                        if ids_view(seen@).contains(x) {
                            let j = choose|j: int| 0 <= j < ids_view(seen@).len() && ids_view(seen@)[j] == x;
                            if j < seen0.len() {
                                assert(seen0[j] == x);
                                assert(seen0.contains(x));
                                assert(pre.contains(x));
                                let k = choose|k: int| 0 <= k < i && pre[k] == x;
                                assert(cur[k] == x);
                            } else {
                                assert(x == id@);
                                assert(cur[i as int] == x);
                            }
                        }
                    }
                }
            },
        }
        assert(forall|x: Seq<char>|
            ids_view(seen@).contains(x) <==> (cur.contains(x) && spec_item_from_id(x) is None));
        i = i + 1;
    }
    assert(all.take(n as int) =~= all);
    (items, invalid)
}

/// Whether `list` holds a string equal to `s`.
fn contains_string(list: &Vec<String>, s: &String) -> (r: bool)
    ensures
        r == ids_view(list@).contains(s@),
{
    let target = chars_of(s.as_str());
    let n = list.len();
    let mut i: usize = 0;
    while i < n
        invariant
            n == list@.len(),
            i <= n,
            target@ == s@,
            forall|j: int| 0 <= j < i ==> list@[j]@ != s@,
        decreases n - i,
    {
        let c = chars_of(list[i].as_str());
        if chars_eq(&c, &target) {
            assert(ids_view(list@)[i as int] == s@);
            return true;
        }
        i = i + 1;
    }
    assert(!ids_view(list@).contains(s@)) by {
        if ids_view(list@).contains(s@) {
            let k = choose|k: int| 0 <= k < n && ids_view(list@)[k] == s@;
            assert(list@[k]@ == s@);
        }
    }
    false
}

/// The GPU model text of the monitor line: vendor and model when both are
/// known, else whichever is known, else `n/a` (empty counts as unknown).
pub open spec fn spec_gpu_model_label(vendor: Option<Seq<char>>, model: Option<Seq<char>>) -> Seq<
    char,
> {
    match (vendor, model) {
        (Some(v), Some(m)) if v.len() > 0 && m.len() > 0 => v + " "@ + m,
        (Some(v), _) if v.len() > 0 => v,
        (_, Some(m)) if m.len() > 0 => m,
        _ => "n/a"@,
    }
}

/// The GPU model text of the monitor line.
pub fn gpu_model_label(vendor: Option<&str>, model: Option<&str>) -> (r: String)
    ensures
        r@ == spec_gpu_model_label(
            match vendor {
                Some(v) => Some(v@),
                None => None,
            },
            match model {
                Some(m) => Some(m@),
                None => None,
            },
        ),
{
    let v_known = match vendor {
        Some(v) => !v.is_empty(),
        None => false,
    };
    let m_known = match model {
        Some(m) => !m.is_empty(),
        None => false,
    };
    match (vendor, model) {
        (Some(v), Some(m)) if v_known && m_known => {
            let mut s = String::from_str(v);
            s.append(" ");
            s.append(m);
            s
        },
        (Some(v), _) if v_known => String::from_str(v),
        (_, Some(m)) if m_known => String::from_str(m),
        _ => String::from_str("n/a"),
    }
}

/// The Ollama status text of the monitor line: `ACTIVE` when the running
/// model reports a context or a context length, `RUNNING` otherwise.
pub fn ollama_status_label(has_context: bool, has_context_length: bool) -> (r: &'static str)
    ensures
        r@ == if has_context || has_context_length {
            "ACTIVE"@
        } else {
            "RUNNING"@
        },
{
    if has_context || has_context_length {
        "ACTIVE"
    } else {
        "RUNNING"
    }
}

/// The metrics endpoint of the monitor daemon on the provider's host.
pub open spec fn spec_monitor_endpoint(provider_base_url: Seq<char>) -> Option<Seq<char>> {
    match url_parse_result(provider_base_url) {
        Err(_) => None,
        Ok(parsed) => match url_set_port_result(parsed, MONITOR_PORT) {
            None => None,
            Some(with_port) => Some(
                url_clear_fragment_result(
                    url_clear_query_result(url_set_path_result(with_port, "/metrics"@)),
                ),
            ),
        },
    }
}

/// The monitor daemon's `/metrics` URL on the host of the provider base URL:
/// same scheme and host, the monitor port, no query or fragment.
pub fn monitor_endpoint(provider_base_url: &str) -> (r: Option<String>)
    ensures
        match spec_monitor_endpoint(provider_base_url@) {
            Some(e) => r matches Some(s) && s@ == e,
            None => r is None,
        },
{
    let mut url = match WebUrl::parse(provider_base_url) {
        Ok(u) => u,
        Err(_) => {
            return None;
        },
    };
    if !url.set_port(MONITOR_PORT) {
        return None;
    }
    proof {
        reveal_strlit("/metrics");
    }
    url.set_path("/metrics");
    url.clear_query();
    url.clear_fragment();
    Some(url.into_string())
}

} // verus!

verus! {

/// The id of the theme-colour toggle of the setup view.
pub const THEME_COLORS_ITEM_ID: &'static str = "status-line-2-use-theme-colors";

/// One row of the monitor status-line setup view.
pub struct MonitorSetupItem {
    pub id: String,
    pub name: String,
    pub description: Option<String>,
    pub enabled: bool,
    pub orderable: bool,
    pub section_break_after: bool,
}

/// The abstract value of a setup row.
pub ghost struct SetupItemView {
    pub id: Seq<char>,
    pub name: Seq<char>,
    pub description: Option<Seq<char>>,
    pub enabled: bool,
    pub orderable: bool,
    pub section_break_after: bool,
}

impl View for MonitorSetupItem {
    type V = SetupItemView;

    open spec fn view(&self) -> SetupItemView {
        SetupItemView {
            id: self.id@,
            name: self.name@,
            description: match self.description {
                Some(d) => Some(d@),
                None => None,
            },
            enabled: self.enabled,
            orderable: self.orderable,
            section_break_after: self.section_break_after,
        }
    }
}

/// The setup row of a monitor item.
pub open spec fn spec_monitor_setup_row(item: MonitorLineItem, enabled: bool) -> SetupItemView {
    SetupItemView {
        id: spec_item_id(item),
        name: spec_item_name(item),
        description: Some(spec_item_description(item)),
        enabled,
        orderable: true,
        section_break_after: false,
    }
}

/// The theme-colour toggle row.
pub open spec fn spec_theme_row(use_theme_colors: bool) -> SetupItemView {
    SetupItemView {
        id: THEME_COLORS_ITEM_ID@,
        name: "Use theme colors"@,
        description: Some("Apply semantic colors to the monitor line"@),
        enabled: use_theme_colors,
        orderable: false,
        section_break_after: true,
    }
}

/// The configured items that are recognised, each once, in order of first
/// appearance.
pub open spec fn spec_selected_items(ids: Seq<Seq<char>>) -> Seq<MonitorLineItem>
    decreases ids.len(),
{
    if ids.len() == 0 {
        Seq::empty()
    } else {
        let rest = spec_selected_items(ids.drop_last());
        match spec_item_from_id(ids.last()) {
            Some(item) => if rest.contains(item) {
                rest
            } else {
                rest.push(item)
            },
            None => rest,
        }
    }
}

/// The items of `all` that are not in `used`, in order.
pub open spec fn spec_unused_items(all: Seq<MonitorLineItem>, used: Seq<MonitorLineItem>) -> Seq<
    MonitorLineItem,
>
    decreases all.len(),
{
    if all.len() == 0 {
        Seq::empty()
    } else {
        let rest = spec_unused_items(all.drop_last(), used);
        if used.contains(all.last()) {
            rest
        } else {
            rest.push(all.last())
        }
    }
}

/// The rows for the given items, enabled or not.
pub open spec fn setup_rows(items: Seq<MonitorLineItem>, enabled: bool) -> Seq<SetupItemView> {
    items.map_values(|it: MonitorLineItem| spec_monitor_setup_row(it, enabled))
}

/// The views of setup rows.
pub open spec fn rows_view(rows: Seq<MonitorSetupItem>) -> Seq<SetupItemView> {
    rows.map_values(|x: MonitorSetupItem| x@)
}

/// The rows of the setup view: the theme toggle, the configured items
/// (enabled), then every other item (disabled).
pub open spec fn spec_monitor_setup_items(ids: Seq<Seq<char>>, use_theme_colors: bool) -> Seq<
    SetupItemView,
> {
    let selected = spec_selected_items(ids);
    seq![spec_theme_row(use_theme_colors)] + setup_rows(selected, true) + setup_rows(
        spec_unused_items(spec_all_items(), selected),
        false,
    )
}

/// The setup row of a monitor item.
pub fn monitor_item(item: MonitorLineItem, enabled: bool) -> (r: MonitorSetupItem)
    ensures
        r@ == spec_monitor_setup_row(item, enabled),
{
    MonitorSetupItem {
        id: String::from_str(item.as_str()),
        name: String::from_str(monitor_item_name(item)),
        description: Some(String::from_str(item.description())),
        enabled,
        orderable: true,
        section_break_after: false,
    }
}

fn contains_item(items: &Vec<MonitorLineItem>, item: MonitorLineItem) -> (r: bool)
    ensures
        r == items@.contains(item),
{
    let n = items.len();
    let mut i: usize = 0;
    while i < n
        invariant
            n == items@.len(),
            i <= n,
            forall|j: int| 0 <= j < i ==> items@[j] != item,
        decreases n - i,
    {
        if items[i] == item {
            return true;
        }
        i = i + 1;
    }
    false
}

/// The rows of the monitor status-line setup view for the configured item
/// ids (none configured: `None`).
pub fn monitor_setup_items(status_line_items: Option<&Vec<String>>, use_theme_colors: bool) -> (r:
    Vec<MonitorSetupItem>)
    ensures
        rows_view(r@) == spec_monitor_setup_items(
            match status_line_items {
                Some(v) => ids_view(v@),
                None => Seq::empty(),
            },
            use_theme_colors,
        ),
{
    let ghost ids = match status_line_items {
        Some(v) => ids_view(v@),
        None => Seq::<Seq<char>>::empty(),
    };
    let mut selected: Vec<MonitorLineItem> = Vec::new();
    if let Some(configured) = status_line_items {
        let n = configured.len();
        let mut i: usize = 0;
        while i < n
            invariant
                n == configured@.len(),
                ids == ids_view(configured@),
                i <= n,
                selected@ == spec_selected_items(ids.take(i as int)),
            decreases n - i,
        {
            assert(ids.take(i + 1).drop_last() =~= ids.take(i as int));
            assert(ids.take(i + 1).last() == configured@[i as int]@);
            if let Some(item) = MonitorLineItem::from_id(configured[i].as_str()) {
                if !contains_item(&selected, item) {
                    selected.push(item);
                }
            }
            i = i + 1;
        }
        assert(ids.take(n as int) =~= ids);
    } else {
        assert(selected@ =~= spec_selected_items(ids));
    }
    let mut rows: Vec<MonitorSetupItem> = Vec::new();
    rows.push(
        MonitorSetupItem {
            id: String::from_str(THEME_COLORS_ITEM_ID),
            name: String::from_str("Use theme colors"),
            description: Some(String::from_str("Apply semantic colors to the monitor line")),
            enabled: use_theme_colors,
            orderable: false,
            section_break_after: true,
        },
    );
    let m = selected.len();
    let mut j: usize = 0;
    while j < m
        invariant
            m == selected@.len(),
            j <= m,
            rows_view(rows@) =~= seq![spec_theme_row(use_theme_colors)] + setup_rows(
                selected@.take(j as int),
                true,
            ),
        decreases m - j,
    {
        let ghost before = rows@;
        rows.push(monitor_item(selected[j], true));
        assert(rows_view(rows@) =~= rows_view(before).push(spec_monitor_setup_row(selected@[j as int], true)));
        assert(setup_rows(selected@.take(j + 1), true) =~= setup_rows(selected@.take(j as int), true).push(spec_monitor_setup_row(selected@[j as int], true)));
        j = j + 1;
    }
    assert(selected@.take(m as int) =~= selected@);
    let ghost head = rows_view(rows@);
    let all = MonitorLineItem::all();
    let mut unused: Vec<MonitorLineItem> = Vec::new();
    let mut k: usize = 0;
    while k < all.len()
        invariant
            all@ == spec_all_items(),
            k <= all@.len(),
            unused@ == spec_unused_items(all@.take(k as int), selected@),
        decreases all@.len() - k,
    {
        assert(all@.take(k + 1).drop_last() =~= all@.take(k as int));
        if !contains_item(&selected, all[k]) {
            unused.push(all[k]);
        }
        k = k + 1;
    }
    assert(all@.take(all@.len() as int) =~= all@);
    let u = unused.len();
    let mut q: usize = 0;
    while q < u
        invariant
            u == unused@.len(),
            q <= u,
            rows_view(rows@) =~= head + setup_rows(unused@.take(q as int), false),
        decreases u - q,
    {
        let ghost before = rows@;
        rows.push(monitor_item(unused[q], false));
        assert(rows_view(rows@) =~= rows_view(before).push(spec_monitor_setup_row(unused@[q as int], false)));
        assert(setup_rows(unused@.take(q + 1), false) =~= setup_rows(unused@.take(q as int), false).push(spec_monitor_setup_row(unused@[q as int], false)));
        q = q + 1;
    }
    assert(unused@.take(u as int) =~= unused@);
    rows
}

/// The setting chosen in the setup view, from the ids of the checked rows:
/// the recognised items in their order, and whether the theme toggle is on.
pub open spec fn spec_monitor_setup_confirmation(ids: Seq<Seq<char>>) -> (
    Seq<Seq<char>>,
    bool,
) {
    (
        spec_parsed_items(ids).map_values(|it: MonitorLineItem| spec_item_id(it)),
        ids.contains(THEME_COLORS_ITEM_ID@),
    )
}

/// Reads the checked rows of the setup view.
pub fn monitor_setup_confirmation(ids: &Vec<String>) -> (r: (Vec<String>, bool))
    ensures
        (ids_view(r.0@), r.1) == spec_monitor_setup_confirmation(ids_view(ids@)),
{
    let ghost all = ids_view(ids@);
    let theme = chars_of(THEME_COLORS_ITEM_ID);
    let mut items: Vec<String> = Vec::new();
    let mut use_theme_colors = false;
    let n = ids.len();
    let mut i: usize = 0;
    while i < n
        invariant
            n == ids@.len(),
            all == ids_view(ids@),
            theme@ == THEME_COLORS_ITEM_ID@,
            i <= n,
            ids_view(items@) == spec_parsed_items(all.take(i as int)).map_values(
                |it: MonitorLineItem| spec_item_id(it),
            ),
            use_theme_colors == all.take(i as int).contains(THEME_COLORS_ITEM_ID@),
        decreases n - i,
    {
        let ghost pre = all.take(i as int);
        let ghost cur = all.take(i + 1);
        assert(cur.drop_last() =~= pre);
        assert(cur.last() == ids@[i as int]@);
        let cs = chars_of(ids[i].as_str());
        let is_theme = chars_eq(&cs, &theme);
        if is_theme {
            assert(cur[i as int] == THEME_COLORS_ITEM_ID@);
        }
        proof {
            if cur.contains(THEME_COLORS_ITEM_ID@) && !is_theme {
                let k = choose|k: int| 0 <= k < i + 1 && cur[k] == THEME_COLORS_ITEM_ID@;
                assert(k < i);
                assert(pre[k] == THEME_COLORS_ITEM_ID@);
            }
            if pre.contains(THEME_COLORS_ITEM_ID@) {
                let k = choose|k: int| 0 <= k < i && pre[k] == THEME_COLORS_ITEM_ID@;
                assert(cur[k] == THEME_COLORS_ITEM_ID@);
            }
        }
        use_theme_colors = use_theme_colors || is_theme;
        let ghost before = items@;
        if let Some(item) = MonitorLineItem::from_id(ids[i].as_str()) {
            items.push(String::from_str(item.as_str()));
            assert(ids_view(items@) =~= ids_view(before).push(spec_item_id(item)));
        }
        assert(spec_parsed_items(cur).map_values(|it: MonitorLineItem| spec_item_id(it))
            =~= ids_view(items@));
        i = i + 1;
    }
    assert(all.take(n as int) =~= all);
    (items, use_theme_colors)
}

} // verus!
