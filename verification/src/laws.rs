//! Properties that relate the library's operations to one another.

use vstd::prelude::*;

use crate::cli_args::{
    spec_marketplace_args, spec_provider_args, LeaseArgs, LeasesArgs, ListArgs, ProbeArgs,
    ProviderLeaseArgs, ProviderLeasesArgs, ProviderListArgs, ProviderProbeArgs, ProviderQuoteArgs,
    ProviderRefreshArgs, ProviderRegisterArgs, ProviderReleaseArgs, ProviderRemoveArgs,
    ProviderRentArgs, ProviderRunArgs, ProviderSubcommand, QuoteArgs, RefreshArgs, RegisterArgs,
    ReleaseArgs, RemoveArgs, RentArgs, RunArgs, SolaiMarketplaceSubcommand,
};
use crate::client::{
    spec_client_ollama_host_root, spec_compact_ollama_base_instructions,
    spec_instructions_for_model_request, spec_is_ollama_provider, spec_is_solai_model,
    spec_truncate_chars, ApiProvider, ModelInstructionsSetting, EMBEDDED_MODEL_INSTRUCTIONS_STUB,
    OLLAMA_COMPACT_BASE_INSTRUCTIONS, OLLAMA_CUSTOM_INSTRUCTIONS_MAX_CHARS,
};
use crate::incremental::spec_incremental_start;
use crate::marketplace_lease::{
    is_later, key_char, spec_is_active_at, spec_sanitize_provider_key, spec_select_active_lease,
    LeaseErrorView, MarketplaceLease, Timestamp,
};
use crate::models_endpoint::{spec_ollama_host_root, spec_ollama_tags_endpoint};
use crate::monitor::{
    quoted, setup_rows, spec_all_items, spec_invalid_ids, spec_item_from_id, spec_item_id,
    spec_monitor_setup_confirmation, spec_monitor_setup_items, spec_monitor_setup_row,
    spec_parsed_items, spec_selected_items, spec_theme_row, spec_unused_items, MonitorLineItem,
    SetupItemView, THEME_COLORS_ITEM_ID,
};
use crate::incremental::spec_prepare_request;
use crate::ollama_chat::lines_by_chunks;
use crate::ollama_chat::{
    json_parses, spec_content_text, spec_item_messages, CallView, ContentItem, ResponseItem,
    ToolArgumentsView,
};
use crate::session::{
    spec_has_yolo_permissions, AskForApproval, ManagedFileSystemPermissions, NetworkSandboxPolicy,
    PermissionProfile,
};
use crate::ollama_chat::lines_from;
use crate::ollama_url::{spec_base_url_to_host_root, spec_is_openai_compatible_base_url};
use crate::provider_config::{
    ollama_listing_view, openai_listing_view, preferred_model_index, spec_into_detected,
    spec_normalize_ollama_model_name, tools_support, DetectedModelView, NormalizedAddressView,
    OllamaModel, OpenAiModel,
};
use crate::response_relay::{initial_relay, spec_relay_run, spec_relay_step, RelayEvent};
use crate::session::{
    lemma_max_line_width_bound, lemma_width_sum_nonneg, max_line_width, spec_content_width,
    width_sum,
};
use crate::text::{
    is_ascii_alnum, is_prefix_of, is_suffix_of, is_white_space, lemma_trim_end_char_shape,
    lemma_trim_start_char_shape, strip_suffix, trim_char, trim_end_char, trim_end_seq,
    trim_end_ws, trim_start_char, trim_start_ws, trim_ws,
};

verus! {

/// The subcommands that `solai provider` and `solai marketplace` share
/// (`register`, `probe`, `list`, `refresh`, `quote`, `rent`, `leases`,
/// `lease`, `release`, `run` and `remove`) are the same command: given the
/// same options, both hand the Node.js provider CLI the same arguments.
pub proof fn law_shared_subcommands_pass_same_arguments(
    endpoint: Option<String>,
    name: Option<String>,
    probe_endpoint: String,
    model: Option<String>,
    max_price: Option<String>,
    available: bool,
    json: bool,
    choice: Option<u64>,
    hours: Option<u64>,
    rent_hours: u64,
    provider: Option<String>,
    lease_id: String,
    run_model: String,
    prompt: Option<String>,
    prompt_file: Option<String>,
    lease: Option<String>,
    provider_public_key: String,
)
    ensures
        spec_provider_args(
            ProviderSubcommand::Register(ProviderRegisterArgs { endpoint, name }),
        ) == spec_marketplace_args(
            SolaiMarketplaceSubcommand::Register(RegisterArgs { endpoint, name }),
        ),
        spec_provider_args(
            ProviderSubcommand::Probe(ProviderProbeArgs { endpoint: probe_endpoint, name }),
        ) == spec_marketplace_args(
            SolaiMarketplaceSubcommand::Probe(ProbeArgs { endpoint: probe_endpoint, name }),
        ),
        spec_provider_args(
            ProviderSubcommand::List(ProviderListArgs { model, max_price, available, json }),
        ) == spec_marketplace_args(
            SolaiMarketplaceSubcommand::List(ListArgs { model, max_price, available, json }),
        ),
        spec_provider_args(ProviderSubcommand::Refresh(ProviderRefreshArgs { json }))
            == spec_marketplace_args(SolaiMarketplaceSubcommand::Refresh(RefreshArgs { json })),
        spec_provider_args(
            ProviderSubcommand::Quote(ProviderQuoteArgs { model, choice, hours, max_price, json }),
        ) == spec_marketplace_args(
            SolaiMarketplaceSubcommand::Quote(QuoteArgs { model, choice, hours, max_price, json }),
        ),
        spec_provider_args(
            ProviderSubcommand::Rent(
                ProviderRentArgs { model, choice, hours: rent_hours, provider, max_price, json },
            ),
        ) == spec_marketplace_args(
            SolaiMarketplaceSubcommand::Rent(
                RentArgs { model, choice, hours: rent_hours, provider, max_price, json },
            ),
        ),
        spec_provider_args(ProviderSubcommand::Leases(ProviderLeasesArgs { json }))
            == spec_marketplace_args(SolaiMarketplaceSubcommand::Leases(LeasesArgs { json })),
        spec_provider_args(ProviderSubcommand::Lease(ProviderLeaseArgs { lease_id, json }))
            == spec_marketplace_args(SolaiMarketplaceSubcommand::Lease(LeaseArgs { lease_id, json })),
        spec_provider_args(ProviderSubcommand::Release(ProviderReleaseArgs { lease_id }))
            == spec_marketplace_args(SolaiMarketplaceSubcommand::Release(ReleaseArgs { lease_id })),
        spec_provider_args(
            ProviderSubcommand::Run(
                ProviderRunArgs { model: run_model, prompt, prompt_file, lease, provider, max_price },
            ),
        ) == spec_marketplace_args(
            SolaiMarketplaceSubcommand::Run(
                RunArgs { model: run_model, prompt, prompt_file, lease, provider, max_price },
            ),
        ),
        spec_provider_args(ProviderSubcommand::Remove(ProviderRemoveArgs { provider_public_key }))
            == spec_marketplace_args(
            SolaiMarketplaceSubcommand::Remove(RemoveArgs { provider_public_key }),
        ),
{
}

/// Every monitor item is recognised again from its own identifier.
pub proof fn law_monitor_item_id_round_trip(item: MonitorLineItem)
    ensures
        spec_item_from_id(spec_item_id(item)) == Some(item),
{
    reveal_strlit("cpu");
    reveal_strlit("ram");
    reveal_strlit("swap");
    reveal_strlit("gpu");
    reveal_strlit("gpu-model");
    reveal_strlit("vram");
    reveal_strlit("gpu-temp");
    reveal_strlit("status");
    reveal_strlit("context");
    reveal_strlit("gpu-cpu");
    let ids: Seq<Seq<char>> = seq![
        "cpu"@, "ram"@, "swap"@, "gpu"@, "gpu-model"@, "vram"@, "gpu-temp"@, "status"@,
        "context"@, "gpu-cpu"@,
    ];
    assert forall|i: int, j: int| 0 <= i < j < 10 implies ids[i] != ids[j] by {
        if ids[i].len() == ids[j].len() {
            assert(ids[i][0] != ids[j][0]);
        }
    }
}

proof fn lemma_selected_items_distinct(ids: Seq<Seq<char>>)
    ensures
        spec_selected_items(ids).no_duplicates(),
    decreases ids.len(),
{
    if ids.len() > 0 {
        lemma_selected_items_distinct(ids.drop_last());
    }
}

proof fn lemma_unused_items(all: Seq<MonitorLineItem>, used: Seq<MonitorLineItem>)
    requires
        all.no_duplicates(),
    ensures
        spec_unused_items(all, used).no_duplicates(),
        forall|x: MonitorLineItem|
            spec_unused_items(all, used).contains(x) <==> (all.contains(x) && !used.contains(x)),
    decreases all.len(),
{
    if all.len() > 0 {
        let init = all.drop_last();
        assert(init.no_duplicates());
        lemma_unused_items(init, used);
        let rest = spec_unused_items(init, used);
        assert(!init.contains(all.last()));
        assert forall|x: MonitorLineItem|
            spec_unused_items(all, used).contains(x) <==> (all.contains(x) && !used.contains(
                x,
            )) by {
            if all.contains(x) {
                let k = choose|k: int| 0 <= k < all.len() && all[k] == x;
                if k < all.len() - 1 {
                    assert(init[k] == x);
                }
            }
            if init.contains(x) {
                let k = choose|k: int| 0 <= k < init.len() && init[k] == x;
                assert(all[k] == x);
            }
            if !used.contains(all.last()) {
                assert(spec_unused_items(all, used) == rest.push(all.last()));
                assert(rest.push(all.last())[rest.len() as int] == all.last());
                if rest.push(all.last()).contains(x) && x != all.last() {
                    let k = choose|k: int|
                        0 <= k < rest.len() + 1 && rest.push(all.last())[k] == x;
                    assert(rest[k] == x);
                }
                if rest.contains(x) {
                    let k = choose|k: int| 0 <= k < rest.len() && rest[k] == x;
                    assert(rest.push(all.last())[k] == x);
                }
            }
        }
    }
}

/// The setup view lists every monitor item exactly once: the configured
/// items first, then the others.
pub proof fn law_setup_lists_each_item_once(ids: Seq<Seq<char>>)
    ensures
        ({
            let selected = spec_selected_items(ids);
            let listed = selected + spec_unused_items(spec_all_items(), selected);
            &&& listed.no_duplicates()
            &&& forall|item: MonitorLineItem| #[trigger] listed.contains(item)
        }),
{
    let selected = spec_selected_items(ids);
    let all = spec_all_items();
    let unused = spec_unused_items(all, selected);
    let listed = selected + unused;
    lemma_selected_items_distinct(ids);
    assert(all.no_duplicates());
    lemma_unused_items(all, selected);
    assert forall|i: int, j: int| 0 <= i < listed.len() && 0 <= j < listed.len() && i != j
        implies listed[i] != listed[j] by {
        if i < selected.len() && j >= selected.len() {
            assert(unused.contains(listed[j]));
            assert(selected.contains(listed[i]));
        } else if j < selected.len() && i >= selected.len() {
            assert(unused.contains(listed[i]));
            assert(selected.contains(listed[j]));
        } else if i >= selected.len() {
            assert(unused[i - selected.len()] != unused[j - selected.len()]);
        }
    }
    assert forall|item: MonitorLineItem| #[trigger] listed.contains(item) by {
        let k: int = match item {
            MonitorLineItem::Cpu => 0,
            MonitorLineItem::Ram => 1,
            MonitorLineItem::Swap => 2,
            MonitorLineItem::Gpu => 3,
            MonitorLineItem::GpuModel => 4,
            MonitorLineItem::Vram => 5,
            MonitorLineItem::GpuTemp => 6,
            MonitorLineItem::Status => 7,
            MonitorLineItem::Context => 8,
            MonitorLineItem::GpuCpu => 9,
        };
        assert(all[k] == item);
        assert(all.contains(item));
        if selected.contains(item) {
            let m = choose|m: int| 0 <= m < selected.len() && selected[m] == item;
            assert(listed[m] == item);
        } else {
            assert(unused.contains(item));
            let m = choose|m: int| 0 <= m < unused.len() && unused[m] == item;
            assert(listed[selected.len() + m] == item);
        }
    }
}

/// A character that may stand in a provider key.
pub open spec fn is_key_char(c: char) -> bool {
    is_ascii_alnum(c) || c == '-' || c == '_'
}

proof fn lemma_sanitized_shape(value: Seq<char>)
    ensures
        ({
            let k = spec_sanitize_provider_key(value);
            &&& forall|i: int| 0 <= i < k.len() ==> is_key_char(#[trigger] k[i])
            &&& k.len() > 0 ==> k[0] != '-' && k.last() != '-'
        }),
{
    let mapped = Seq::new(value.len(), |i: int| key_char(value[i]));
    let e = trim_end_char(mapped, '-');
    let k = trim_start_char(e, '-');
    lemma_trim_end_char_shape(mapped, '-');
    lemma_trim_start_char_shape(e, '-');
    assert(k == spec_sanitize_provider_key(value));
    assert forall|i: int| 0 <= i < k.len() implies is_key_char(#[trigger] k[i]) by {
        let j = e.len() - k.len() + i;
        assert(k[i] == e[j]);
        assert(e[j] == mapped[j]);
    }
    if k.len() > 0 {
        assert(k.last() == e.last());
    }
}

/// A sanitised provider key is made of ASCII letters, digits, `-` and `_`,
/// neither starts nor ends with `-`, and sanitising it again changes
/// nothing.
pub proof fn law_sanitized_key_is_stable(value: Seq<char>)
    ensures
        ({
            let k = spec_sanitize_provider_key(value);
            &&& forall|i: int| 0 <= i < k.len() ==> is_key_char(#[trigger] k[i])
            &&& k.len() > 0 ==> k[0] != '-' && k.last() != '-'
            &&& spec_sanitize_provider_key(k) == k
        }),
{
    let k = spec_sanitize_provider_key(value);
    lemma_sanitized_shape(value);
    let mapped = Seq::new(k.len(), |i: int| key_char(k[i]));
    assert(mapped =~= k) by {
        assert forall|i: int| 0 <= i < k.len() implies mapped[i] == k[i] by {
            assert(is_key_char(k[i]));
        }
    }
    assert(trim_end_char(k, '-') == k);
    assert(trim_start_char(k, '-') == k);
    assert(trim_char(k, '-') == k);
}

/// A lease that is handed out carries the requested id and an auth token
/// and is active at the time of the request.
pub proof fn law_selected_lease_is_usable(
    leases: Seq<MarketplaceLease>,
    lease_id: Seq<char>,
    now: Timestamp,
)
    ensures
        spec_select_active_lease(leases, lease_id, now) matches Ok(l) ==> {
            &&& l.id@ == lease_id
            &&& trim_ws(l.auth_token@).len() > 0
            &&& spec_is_active_at(l, now)
            &&& leases.contains(l)
        },
{
    crate::marketplace_lease::lemma_first_lease(leases, lease_id);
}

/// Once a lease has expired, asking for it again is refused as inactive,
/// whatever time it is asked at.
pub proof fn law_expired_lease_is_refused(
    leases: Seq<MarketplaceLease>,
    lease_id: Seq<char>,
    now: Timestamp,
    later: Timestamp,
)
    requires
        spec_select_active_lease(leases, lease_id, now) matches Ok(l) && !is_later(
            l.expires_at,
            later,
        ),
    ensures
        spec_select_active_lease(leases, lease_id, later) == Err::<MarketplaceLease, LeaseErrorView>(
            LeaseErrorView::Inactive(lease_id),
        ),
{
}

proof fn lemma_quoted_injective(a: Seq<char>, b: Seq<char>)
    requires
        quoted(a) == quoted(b),
    ensures
        a == b,
{
    assert(a =~= quoted(a).subrange(1, quoted(a).len() - 1));
    assert(b =~= quoted(b).subrange(1, quoted(b).len() - 1));
}

proof fn lemma_parse_accounts(ids: Seq<Seq<char>>)
    ensures
        forall|i: int|
            0 <= i < ids.len() ==> match spec_item_from_id(#[trigger] ids[i]) {
                Some(item) => spec_parsed_items(ids).contains(item),
                None => spec_invalid_ids(ids).contains(quoted(ids[i])),
            },
        forall|q: Seq<char>|
            spec_invalid_ids(ids).contains(q) ==> exists|x: Seq<char>|
                ids.contains(x) && q == quoted(x),
        spec_invalid_ids(ids).no_duplicates(),
    decreases ids.len(),
{
    if ids.len() > 0 {
        let init = ids.drop_last();
        let id = ids.last();
        lemma_parse_accounts(init);
        let parsed0 = spec_parsed_items(init);
        let invalid0 = spec_invalid_ids(init);
        let parsed = spec_parsed_items(ids);
        let invalid = spec_invalid_ids(ids);
        assert forall|x: MonitorLineItem| parsed0.contains(x) implies parsed.contains(x) by {
            let k = choose|k: int| 0 <= k < parsed0.len() && parsed0[k] == x;
            assert(parsed[k] == x);
        }
        assert forall|q: Seq<char>| invalid0.contains(q) implies invalid.contains(q) by {
            let k = choose|k: int| 0 <= k < invalid0.len() && invalid0[k] == q;
            assert(invalid[k] == q);
        }
        assert forall|i: int|
            0 <= i < ids.len() implies match spec_item_from_id(#[trigger] ids[i]) {
                Some(item) => parsed.contains(item),
                None => invalid.contains(quoted(ids[i])),
            } by {
            if i < ids.len() - 1 {
                assert(init[i] == ids[i]);
            } else {
                match spec_item_from_id(id) {
                    Some(item) => {
                        assert(parsed[parsed.len() - 1] == item);
                    },
                    None => {
                        if init.contains(id) {
                            let j = choose|j: int| 0 <= j < init.len() && init[j] == id;
                            assert(spec_item_from_id(init[j]) is None);
                        } else {
                            assert(invalid[invalid.len() - 1] == quoted(id));
                        }
                    },
                }
            }
        }
        assert forall|q: Seq<char>| invalid.contains(q) implies exists|x: Seq<char>|
            ids.contains(x) && q == quoted(x) by {
            let k = choose|k: int| 0 <= k < invalid.len() && invalid[k] == q;
            if k < invalid0.len() {
                assert(invalid0[k] == q);
                assert(invalid0.contains(q));
                let x = choose|x: Seq<char>| init.contains(x) && q == quoted(x);
                let j = choose|j: int| 0 <= j < init.len() && init[j] == x;
                assert(ids[j] == x);
                assert(ids.contains(x));
            } else {
                assert(spec_item_from_id(id) is None && !init.contains(id));
                assert(invalid == invalid0.push(quoted(id)));
                assert(q == quoted(id));
                assert(ids[ids.len() - 1] == id);
                assert(ids.contains(id));
            }
        }
        if spec_item_from_id(id) is None && !init.contains(id) {
            assert forall|a: int, b: int| 0 <= a < b < invalid.len() implies invalid[a]
                != invalid[b] by {
                if b == invalid.len() - 1 {
                    assert(invalid0.contains(invalid[a]));
                    let x = choose|x: Seq<char>| init.contains(x) && invalid[a] == quoted(x);
                    if invalid[a] == invalid[b] {
                        lemma_quoted_injective(x, id);
                    }
                } else {
                    assert(invalid0[a] != invalid0[b]);
                }
            }
        }
    }
}

/// Reading the configured monitor items accounts for every identifier: a
/// recognised one yields its item, an unrecognised one is reported, quoted,
/// and no unrecognised identifier is reported twice.
pub proof fn law_monitor_ids_all_accounted(ids: Seq<Seq<char>>)
    ensures
        forall|i: int|
            0 <= i < ids.len() ==> match spec_item_from_id(#[trigger] ids[i]) {
                Some(item) => spec_parsed_items(ids).contains(item),
                None => spec_invalid_ids(ids).contains(quoted(ids[i])),
            },
        spec_invalid_ids(ids).no_duplicates(),
{
    lemma_parse_accounts(ids);
}

/// The identifiers of the checked rows of a setup view, in order.
pub open spec fn checked_ids(rows: Seq<SetupItemView>) -> Seq<Seq<char>>
    decreases rows.len(),
{
    if rows.len() == 0 {
        Seq::empty()
    } else {
        let rest = checked_ids(rows.drop_last());
        if rows.last().enabled {
            rest.push(rows.last().id)
        } else {
            rest
        }
    }
}

proof fn lemma_checked_concat(a: Seq<SetupItemView>, b: Seq<SetupItemView>)
    ensures
        checked_ids(a + b) == checked_ids(a) + checked_ids(b),
    decreases b.len(),
{
    if b.len() == 0 {
        assert(a + b =~= a);
        assert(checked_ids(a) + checked_ids(b) =~= checked_ids(a));
    } else {
        assert((a + b).drop_last() =~= a + b.drop_last());
        assert((a + b).last() == b.last());
        lemma_checked_concat(a, b.drop_last());
        if b.last().enabled {
            assert(checked_ids(a) + checked_ids(b) =~= (checked_ids(a) + checked_ids(
                b.drop_last(),
            )).push(b.last().id));
        }
    }
}

proof fn lemma_checked_rows(items: Seq<MonitorLineItem>, enabled: bool)
    ensures
        checked_ids(setup_rows(items, enabled)) == if enabled {
            items.map_values(|it: MonitorLineItem| spec_item_id(it))
        } else {
            Seq::<Seq<char>>::empty()
        },
    decreases items.len(),
{
    if items.len() == 0 {
        assert(setup_rows(items, enabled) =~= Seq::<SetupItemView>::empty());
        assert(items.map_values(|it: MonitorLineItem| spec_item_id(it)) =~= Seq::<
            Seq<char>,
        >::empty());
    } else {
        let rows = setup_rows(items, enabled);
        assert(rows.drop_last() =~= setup_rows(items.drop_last(), enabled));
        assert(rows.last() == spec_monitor_setup_row(items.last(), enabled));
        lemma_checked_rows(items.drop_last(), enabled);
        assert(items.map_values(|it: MonitorLineItem| spec_item_id(it)) =~= items.drop_last().map_values(
            |it: MonitorLineItem| spec_item_id(it),
        ).push(spec_item_id(items.last())));
    }
}

proof fn lemma_parsed_concat(a: Seq<Seq<char>>, b: Seq<Seq<char>>)
    ensures
        spec_parsed_items(a + b) == spec_parsed_items(a) + spec_parsed_items(b),
    decreases b.len(),
{
    if b.len() == 0 {
        assert(a + b =~= a);
        assert(spec_parsed_items(a) + spec_parsed_items(b) =~= spec_parsed_items(a));
    } else {
        assert((a + b).drop_last() =~= a + b.drop_last());
        assert((a + b).last() == b.last());
        lemma_parsed_concat(a, b.drop_last());
        if let Some(item) = spec_item_from_id(b.last()) {
            assert(spec_parsed_items(a) + spec_parsed_items(b) =~= (spec_parsed_items(a)
                + spec_parsed_items(b.drop_last())).push(item));
        }
    }
}

proof fn lemma_parsed_ids(items: Seq<MonitorLineItem>)
    ensures
        spec_parsed_items(items.map_values(|it: MonitorLineItem| spec_item_id(it))) == items,
    decreases items.len(),
{
    let ids = items.map_values(|it: MonitorLineItem| spec_item_id(it));
    if items.len() == 0 {
        assert(spec_parsed_items(ids) =~= items);
    } else {
        assert(ids.drop_last() =~= items.drop_last().map_values(
            |it: MonitorLineItem| spec_item_id(it),
        ));
        lemma_parsed_ids(items.drop_last());
        law_monitor_item_id_round_trip(items.last());
        assert(spec_parsed_items(ids) =~= items.drop_last().push(items.last()));
        assert(items.drop_last().push(items.last()) =~= items);
    }
}

proof fn lemma_theme_id_is_no_item(item: MonitorLineItem)
    ensures
        spec_item_id(item) != THEME_COLORS_ITEM_ID@,
        spec_item_from_id(THEME_COLORS_ITEM_ID@) is None,
{
    reveal_strlit("status-line-2-use-theme-colors");
    reveal_strlit("cpu");
    reveal_strlit("ram");
    reveal_strlit("swap");
    reveal_strlit("gpu");
    reveal_strlit("gpu-model");
    reveal_strlit("vram");
    reveal_strlit("gpu-temp");
    reveal_strlit("status");
    reveal_strlit("context");
    reveal_strlit("gpu-cpu");
    assert(THEME_COLORS_ITEM_ID@ == "status-line-2-use-theme-colors"@);
    assert(THEME_COLORS_ITEM_ID@.len() == 30);
    assert(spec_item_id(item).len() < 10);
}

/// Confirming the setup view with the rows checked as it shows them gives
/// back the configured items (recognised ones, each once, in order) and the
/// theme-colour setting it was opened with.
pub proof fn law_setup_confirmation_round_trip(ids: Seq<Seq<char>>, use_theme_colors: bool)
    ensures
        spec_monitor_setup_confirmation(
            checked_ids(spec_monitor_setup_items(ids, use_theme_colors)),
        ) == (
            spec_selected_items(ids).map_values(|it: MonitorLineItem| spec_item_id(it)),
            use_theme_colors,
        ),
{
    let selected = spec_selected_items(ids);
    let unused = spec_unused_items(spec_all_items(), selected);
    let theme = seq![spec_theme_row(use_theme_colors)];
    let sel_ids = selected.map_values(|it: MonitorLineItem| spec_item_id(it));
    lemma_checked_concat(theme + setup_rows(selected, true), setup_rows(unused, false));
    lemma_checked_concat(theme, setup_rows(selected, true));
    lemma_checked_rows(selected, true);
    lemma_checked_rows(unused, false);
    assert(theme.drop_last() =~= Seq::<SetupItemView>::empty());
    let head = checked_ids(theme);
    assert(checked_ids(theme.drop_last()) =~= Seq::<Seq<char>>::empty());
    assert(theme.last() == spec_theme_row(use_theme_colors));
    assert(head =~= if use_theme_colors {
        seq![THEME_COLORS_ITEM_ID@]
    } else {
        Seq::<Seq<char>>::empty()
    });
    let checked = checked_ids(spec_monitor_setup_items(ids, use_theme_colors));
    assert(checked =~= head + sel_ids);
    lemma_parsed_concat(head, sel_ids);
    lemma_parsed_ids(selected);
    lemma_theme_id_is_no_item(MonitorLineItem::Cpu);
    assert(spec_parsed_items(head) =~= Seq::<MonitorLineItem>::empty()) by {
        if use_theme_colors {
            assert(head.drop_last() =~= Seq::<Seq<char>>::empty());
            assert(spec_parsed_items(head.drop_last()) =~= Seq::<MonitorLineItem>::empty());
            assert(head.last() == THEME_COLORS_ITEM_ID@);
        } else {
            assert(head =~= Seq::<Seq<char>>::empty());
        }
    }
    assert(spec_parsed_items(checked) =~= selected);
    assert(checked.contains(THEME_COLORS_ITEM_ID@) == use_theme_colors) by {
        if use_theme_colors {
            assert(checked[0] == THEME_COLORS_ITEM_ID@);
        } else {
            assert(checked =~= sel_ids);
            if sel_ids.contains(THEME_COLORS_ITEM_ID@) {
                let k = choose|k: int| 0 <= k < sel_ids.len() && sel_ids[k] == THEME_COLORS_ITEM_ID@;
                lemma_theme_id_is_no_item(selected[k]);
            }
        }
    }
}

proof fn lemma_preferred_model(models: Seq<DetectedModelView>)
    requires
        models.len() > 0,
    ensures
        0 <= preferred_model_index(models) < models.len(),
        (exists|i: int| 0 <= i < models.len() && models[i].supports_tools == Some(true))
            ==> models[preferred_model_index(models)].supports_tools == Some(true),
{
    if exists|i: int| 0 <= i < models.len() && models[i].supports_tools == Some(true) {
        let w = choose|i: int| 0 <= i < models.len() && models[i].supports_tools == Some(true);
        lemma_first_tool_model(models, w);
    }
}

proof fn lemma_first_tool_model(models: Seq<DetectedModelView>, w: int)
    requires
        0 <= w < models.len(),
        models[w].supports_tools == Some(true),
    ensures
        exists|i: int|
            0 <= i < models.len() && models[i].supports_tools == Some(true) && forall|j: int|
                0 <= j < i ==> models[j].supports_tools != Some(true),
    decreases w,
{
    if exists|j: int| 0 <= j < w && models[j].supports_tools == Some(true) {
        let j = choose|j: int| 0 <= j < w && models[j].supports_tools == Some(true);
        lemma_first_tool_model(models, j);
    } else {
        assert(forall|j: int| 0 <= j < w ==> models[j].supports_tools != Some(true));
    }
}

/// A model whose catalog entry lists the `tools` capability is treated as
/// tool-capable, and a detected Ollama configuration selects one of the
/// listed models: a tool-capable one whenever the listing has one.
pub proof fn law_ollama_detection_prefers_tool_models(
    address: NormalizedAddressView,
    listing: Seq<OllamaModel>,
)
    requires
        listing.len() > 0,
    ensures
        forall|i: int|
            0 <= i < listing.len() ==> (#[trigger] ollama_listing_view(listing)[i]).supports_tools
                == tools_support(listing[i].capabilities),
        ({
            let model = spec_into_detected(address, ollama_listing_view(listing)).model;
            &&& exists|i: int|
                0 <= i < listing.len() && model == spec_normalize_ollama_model_name(
                    #[trigger] listing[i].name@,
                )
            &&& (exists|i: int|
                0 <= i < listing.len() && tools_support(#[trigger] listing[i].capabilities)
                    == Some(true)) ==> exists|i: int|
                0 <= i < listing.len() && tools_support(#[trigger] listing[i].capabilities)
                    == Some(true) && model == spec_normalize_ollama_model_name(listing[i].name@)
        }),
{
    let view = ollama_listing_view(listing);
    lemma_preferred_model(view);
    let p = preferred_model_index(view);
    assert(view[p].id == spec_normalize_ollama_model_name(listing[p].name@));
    if exists|i: int|
        0 <= i < listing.len() && tools_support(#[trigger] listing[i].capabilities) == Some(
            true,
        ) {
        let w = choose|i: int|
            0 <= i < listing.len() && tools_support(#[trigger] listing[i].capabilities) == Some(
                true,
            );
        assert(view[w].supports_tools == Some(true));
        assert(view[p].supports_tools == Some(true));
    }
}

/// The same for an OpenAI-compatible listing: the selected model is a listed
/// one, tool-capable whenever the listing has a tool-capable entry.
pub proof fn law_openai_detection_prefers_tool_models(
    address: NormalizedAddressView,
    listing: Seq<OpenAiModel>,
)
    requires
        listing.len() > 0,
    ensures
        ({
            let model = spec_into_detected(address, openai_listing_view(listing)).model;
            &&& exists|i: int| 0 <= i < listing.len() && model == (#[trigger] listing[i].id@)
            &&& (exists|i: int|
                0 <= i < listing.len() && tools_support(#[trigger] listing[i].capabilities)
                    == Some(true)) ==> exists|i: int|
                0 <= i < listing.len() && tools_support(#[trigger] listing[i].capabilities)
                    == Some(true) && model == listing[i].id@
        }),
{
    let view = openai_listing_view(listing);
    lemma_preferred_model(view);
    let p = preferred_model_index(view);
    assert(view[p].id == listing[p].id@);
    if exists|i: int|
        0 <= i < listing.len() && tools_support(#[trigger] listing[i].capabilities) == Some(
            true,
        ) {
        let w = choose|i: int|
            0 <= i < listing.len() && tools_support(#[trigger] listing[i].capabilities) == Some(
                true,
            );
        assert(view[w].supports_tools == Some(true));
        assert(view[p].supports_tools == Some(true));
    }
}

/// Cutting text keeps its first characters: the result begins with the
/// first `max_chars` characters of the text (all of it when it is short
/// enough) and is at most `max_chars` characters plus the cut marker.
pub proof fn law_truncation_keeps_a_bounded_prefix(text: Seq<char>, max_chars: usize)
    ensures
        is_prefix_of(
            text.take(if text.len() <= max_chars {
                text.len() as int
            } else {
                max_chars as int
            }),
            spec_truncate_chars(text, max_chars),
        ),
        spec_truncate_chars(text, max_chars).len() <= max_chars + 12,
        text.len() <= max_chars ==> spec_truncate_chars(text, max_chars) == text,
{
    reveal_strlit("\n[truncated]");
    let r = spec_truncate_chars(text, max_chars);
    if text.len() <= max_chars {
        assert(text.take(text.len() as int) =~= text);
        assert(r.take(text.len() as int) =~= text);
    } else {
        assert(r.take(max_chars as int) =~= text.take(max_chars as int));
    }
}

/// The compact prompt for small-context Ollama models always begins with
/// the compact instructions and never exceeds them by more than the header
/// of the user's own instructions and the character limit on them.
pub proof fn law_compact_prompt_is_bounded(base: Seq<char>, default_instructions: Seq<char>)
    ensures
        is_prefix_of(
            OLLAMA_COMPACT_BASE_INSTRUCTIONS@,
            spec_compact_ollama_base_instructions(base, default_instructions),
        ),
        spec_compact_ollama_base_instructions(base, default_instructions).len()
            <= OLLAMA_COMPACT_BASE_INSTRUCTIONS@.len() + 37 + OLLAMA_CUSTOM_INSTRUCTIONS_MAX_CHARS
            + 12,
{
    reveal_strlit("\n\nUser configured base instructions:\n");
    let c = OLLAMA_COMPACT_BASE_INSTRUCTIONS@;
    let r = spec_compact_ollama_base_instructions(base, default_instructions);
    law_truncation_keeps_a_bounded_prefix(base, OLLAMA_CUSTOM_INSTRUCTIONS_MAX_CHARS);
    assert(r.take(c.len() as int) =~= c);
}

/// The setting for models that embed their instructions changes the request
/// only for SolaiAgent models served by Ollama; for those it replaces the
/// base instructions with the short pointer.
pub proof fn law_embedded_instructions_only_for_solai_on_ollama(
    provider: ApiProvider,
    model: Seq<char>,
    base_instructions: Seq<char>,
    compact_ollama_prompt: bool,
    default_instructions: Seq<char>,
)
    ensures
        spec_is_ollama_provider(provider.name@, provider.base_url@) && spec_is_solai_model(model)
            ==> spec_instructions_for_model_request(
            provider,
            model,
            base_instructions,
            compact_ollama_prompt,
            ModelInstructionsSetting::EmbeddedInModel,
            default_instructions,
        ) == EMBEDDED_MODEL_INSTRUCTIONS_STUB@,
        !(spec_is_ollama_provider(provider.name@, provider.base_url@) && spec_is_solai_model(
            model,
        )) ==> spec_instructions_for_model_request(
            provider,
            model,
            base_instructions,
            compact_ollama_prompt,
            ModelInstructionsSetting::EmbeddedInModel,
            default_instructions,
        ) == spec_instructions_for_model_request(
            provider,
            model,
            base_instructions,
            compact_ollama_prompt,
            ModelInstructionsSetting::SendBaseInstructions,
            default_instructions,
        ),
{
}

proof fn lemma_lines_concat(a: Seq<char>, b: Seq<char>, cur: Seq<char>)
    ensures
        lines_from(a + b, cur) == (
            lines_from(a, cur).0 + lines_from(b, lines_from(a, cur).1).0,
            lines_from(b, lines_from(a, cur).1).1,
        ),
    decreases a.len(),
{
    if a.len() == 0 {
        assert(a + b =~= b);
        assert(lines_from(a, cur).0 + lines_from(b, cur).0 =~= lines_from(b, cur).0);
    } else {
        assert((a + b)[0] == a[0]);
        assert((a + b).drop_first() =~= a.drop_first() + b);
        if a[0] == '\n' {
            lemma_lines_concat(a.drop_first(), b, Seq::empty());
            let line = trim_ws(cur);
            let ra = lines_from(a.drop_first(), Seq::<char>::empty());
            if line.len() > 0 {
                assert(seq![line] + (ra.0 + lines_from(b, ra.1).0) =~= (seq![line] + ra.0)
                    + lines_from(b, ra.1).0);
            }
        } else {
            lemma_lines_concat(a.drop_first(), b, cur.push(a[0]));
        }
    }
}

proof fn lemma_lines_after_partial(r: Seq<char>, b: Seq<char>, cur: Seq<char>)
    requires
        forall|i: int| 0 <= i < r.len() ==> r[i] != '\n',
    ensures
        lines_from(r + b, cur) == lines_from(b, cur + r),
    decreases r.len(),
{
    if r.len() == 0 {
        assert(r + b =~= b);
        assert(cur + r =~= cur);
    } else {
        assert((r + b)[0] == r[0]);
        assert((r + b).drop_first() =~= r.drop_first() + b);
        assert(r[0] != '\n');
        lemma_lines_after_partial(r.drop_first(), b, cur.push(r[0]));
        assert(cur.push(r[0]) + r.drop_first() =~= cur + r);
    }
}

proof fn lemma_lines_rest(p: Seq<char>, cur: Seq<char>)
    requires
        forall|i: int| 0 <= i < cur.len() ==> cur[i] != '\n',
    ensures
        forall|i: int|
            0 <= i < lines_from(p, cur).1.len() ==> #[trigger] lines_from(p, cur).1[i] != '\n',
    decreases p.len(),
{
    if p.len() > 0 {
        if p[0] == '\n' {
            lemma_lines_rest(p.drop_first(), Seq::empty());
            assert(lines_from(p, cur).1 == lines_from(p.drop_first(), Seq::<char>::empty()).1);
        } else {
            assert forall|i: int| 0 <= i < cur.push(p[0]).len() implies cur.push(p[0])[i]
                != '\n' by {
                if i < cur.len() {
                    assert(cur.push(p[0])[i] == cur[i]);
                }
            }
            lemma_lines_rest(p.drop_first(), cur.push(p[0]));
            assert(lines_from(p, cur) == lines_from(p.drop_first(), cur.push(p[0])));
        }
    }
}

/// Splitting a streamed reply into lines does not depend on how it was cut
/// into chunks: splitting the first chunk, then the unfinished rest joined
/// with the second chunk, gives the lines and rest of splitting both at
/// once; and the unfinished rest never holds a newline.
pub proof fn law_stream_lines_ignore_chunking(a: Seq<char>, b: Seq<char>)
    ensures
        ({
            let first = lines_from(a, Seq::empty());
            let second = lines_from(first.1 + b, Seq::empty());
            lines_from(a + b, Seq::empty()) == (first.0 + second.0, second.1)
        }),
        forall|i: int|
            0 <= i < lines_from(a, Seq::empty()).1.len() ==> #[trigger] lines_from(
                a,
                Seq::empty(),
            ).1[i] != '\n',
{
    let first = lines_from(a, Seq::<char>::empty());
    lemma_lines_rest(a, Seq::empty());
    lemma_lines_concat(a, b, Seq::empty());
    lemma_lines_after_partial(first.1, b, Seq::empty());
    assert(Seq::<char>::empty() + first.1 =~= first.1);
}

proof fn lemma_lines_by_chunks(chunks: Seq<Seq<char>>, pending: Seq<char>)
    requires
        forall|i: int| 0 <= i < pending.len() ==> pending[i] != '\n',
    ensures
        lines_by_chunks(chunks, pending) == lines_from(pending + chunks.flatten(), Seq::empty()),
    decreases chunks.len(),
{
    if chunks.len() == 0 {
        assert(pending + chunks.flatten() =~= pending + Seq::<char>::empty());
        lemma_lines_after_partial(pending, Seq::empty(), Seq::empty());
        assert(Seq::<char>::empty() + pending =~= pending);
    } else {
        let head = pending + chunks[0];
        let tail = chunks.drop_first().flatten();
        let split = lines_from(head, Seq::<char>::empty());
        lemma_lines_rest(head, Seq::empty());
        lemma_lines_by_chunks(chunks.drop_first(), split.1);
        lemma_lines_concat(head, tail, Seq::empty());
        lemma_lines_after_partial(split.1, tail, Seq::empty());
        assert(Seq::<char>::empty() + split.1 =~= split.1);
        assert(chunks.flatten() == chunks[0] + tail);
        assert(pending + chunks.flatten() =~= head + tail);
    }
}

/// Reading a streamed reply chunk by chunk gives the lines, and the
/// unfinished rest, of splitting the whole reply at once; so two ways of
/// cutting the same text into chunks give the same lines.
pub proof fn law_stream_lines_ignore_any_chunking(chunks: Seq<Seq<char>>, other: Seq<Seq<char>>)
    requires
        chunks.flatten() == other.flatten(),
    ensures
        lines_by_chunks(chunks, Seq::empty()) == lines_from(chunks.flatten(), Seq::empty()),
        lines_by_chunks(chunks, Seq::empty()) == lines_by_chunks(other, Seq::empty()),
{
    lemma_lines_by_chunks(chunks, Seq::empty());
    lemma_lines_by_chunks(other, Seq::empty());
    assert(Seq::<char>::empty() + chunks.flatten() =~= chunks.flatten());
    assert(Seq::<char>::empty() + other.flatten() =~= other.flatten());
}

/// A websocket session continues its last request: when the next request
/// keeps the other properties and its input is the last input, then the
/// items the response added, then anything new, it is sent from the new
/// items on, continuing the response, and flagged as continuing a warmup
/// exactly when the last request was one. A session that remembers no
/// request (new, or reset) sends every request whole.
pub proof fn law_websocket_session_continues_last_request(
    input: Seq<u64>,
    warmup: bool,
    response_id: Seq<char>,
    items: Seq<u64>,
    new_items: Seq<u64>,
    received: Option<(Seq<char>, Seq<u64>)>,
    properties_match: bool,
    current_input: Seq<u64>,
)
    requires
        response_id.len() > 0,
    ensures
        spec_prepare_request(
            Some(input),
            warmup,
            Some((response_id, items)),
            true,
            input + items + new_items,
        ) == Some((response_id, (input.len() + items.len()) as int, warmup)),
        spec_prepare_request(None, warmup, received, properties_match, current_input) is None,
{
    let baseline = input + items;
    let current = baseline + new_items;
    assert(current.take(baseline.len() as int) =~= baseline);
}

proof fn lemma_max_line_width_attained(lines: Seq<Seq<usize>>)
    ensures
        lines.len() == 0 ==> max_line_width(lines) == 0,
        lines.len() > 0 ==> exists|i: int|
            0 <= i < lines.len() && max_line_width(lines) == width_sum(#[trigger] lines[i]),
    decreases lines.len(),
{
    if lines.len() > 0 {
        let init = lines.drop_last();
        lemma_max_line_width_attained(init);
        let last = lines.len() - 1;
        if width_sum(lines[last]) > max_line_width(init) || init.len() == 0 {
            lemma_width_sum_nonneg(lines[last]);
            assert(max_line_width(lines) == width_sum(lines[last]));
        } else {
            let i = choose|i: int|
                0 <= i < init.len() && max_line_width(init) == width_sum(#[trigger] init[i]);
            assert(lines[i] == init[i]);
        }
    }
}

/// The content area of a card is as narrow as it can be: every line fits
/// in it, it is at least the requested width, and it is the requested
/// width, the width of one of the lines, or 0 when there is neither.
pub proof fn law_card_width_is_tight(lines: Seq<Seq<usize>>, forced: Option<usize>)
    ensures
        forall|i: int|
            0 <= i < lines.len() ==> width_sum(#[trigger] lines[i]) <= spec_content_width(
                lines,
                forced,
            ),
        forced matches Some(f) ==> f <= spec_content_width(lines, forced),
        spec_content_width(lines, forced) == 0 || (forced matches Some(f)
            && spec_content_width(lines, forced) == f) || exists|i: int|
            0 <= i < lines.len() && spec_content_width(lines, forced) == width_sum(
                #[trigger] lines[i],
            ),
{
    assert forall|i: int| 0 <= i < lines.len() implies width_sum(#[trigger] lines[i])
        <= spec_content_width(lines, forced) by {
        lemma_max_line_width_bound(lines, i);
    }
    lemma_max_line_width_attained(lines);
}

/// `n` slashes.
pub open spec fn slashes(n: nat) -> Seq<char> {
    Seq::new(n, |i: int| '/')
}

proof fn lemma_trim_trailing_slashes(s: Seq<char>, n: nat)
    ensures
        trim_end_char(s + slashes(n), '/') == trim_end_char(s, '/'),
    decreases n,
{
    if n == 0 {
        assert(s + slashes(n) =~= s);
    } else {
        let t = s + slashes(n);
        assert(t.last() == '/');
        assert(t.drop_last() =~= s + slashes((n - 1) as nat));
        lemma_trim_trailing_slashes(s, (n - 1) as nat);
    }
}

/// A provider base URL `<root>/v1`, with or without trailing slashes, has
/// the host root `<root>` for every part of the library that computes one,
/// counts as OpenAI-compatible, and has its Ollama catalog at
/// `<root>/api/tags`; and `<root>` itself, with or without trailing
/// slashes, is its own host root.
pub proof fn law_v1_base_url_has_root_host(root: Seq<char>, trailing_slashes: nat)
    requires
        root.len() > 0,
        !is_white_space(root[0]),
        root.last() != '/',
        !is_suffix_of("/v1"@, root),
    ensures
        ({
            let base = root + "/v1"@ + slashes(trailing_slashes);
            &&& spec_base_url_to_host_root(base) == root
            &&& spec_client_ollama_host_root(base) == root
            &&& spec_ollama_host_root(base) == root
            &&& spec_is_openai_compatible_base_url(base)
            &&& spec_ollama_tags_endpoint(Some(base)) == Ok::<Seq<char>, Seq<char>>(
                root + "/api/tags"@,
            )
        }),
        spec_base_url_to_host_root(root + slashes(trailing_slashes)) == root,
{
    reveal_strlit("/v1");
    lemma_trim_trailing_slashes(root, trailing_slashes);
    assert(trim_end_char(root, '/') == root);
    let v = root + "/v1"@;
    let base = v + slashes(trailing_slashes);
    lemma_trim_trailing_slashes(v, trailing_slashes);
    assert(v.last() == '1');
    assert(trim_end_char(v, '/') == v);
    assert(v.skip(v.len() - 3) =~= "/v1"@);
    assert(is_suffix_of("/v1"@, v));
    assert(v.take(v.len() - 3) =~= root);
    assert(strip_suffix(v, "/v1"@) == Some(root));
    assert(trim_end_seq(root, "/v1"@) == root);
    assert(trim_end_seq(v, "/v1"@) == trim_end_seq(root, "/v1"@));
    assert(trim_end_char(root, '/') == root);
    assert(base.last() == '/' || base.last() == '1') by {
        if trailing_slashes > 0 {
            assert(base.last() == slashes(trailing_slashes).last());
        } else {
            assert(base =~= v);
        }
    }
    assert(trim_end_ws(base) == base);
    assert(base[0] == root[0]);
    assert(trim_start_ws(base) == base);
    assert(trim_ws(base) == base);
}

/// The output items among a sequence of stream events, in order.
pub open spec fn items_of<T, U, O, E>(events: Seq<RelayEvent<T, U, O, E>>) -> Seq<T>
    decreases events.len(),
{
    if events.len() == 0 {
        Seq::empty()
    } else {
        let before = items_of(events.drop_last());
        match events.last() {
            RelayEvent::OutputItemDone(x) => before.push(x),
            _ => before,
        }
    }
}

/// Event `i` is the first completion of the stream.
pub open spec fn first_completion<T, U, O, E>(events: Seq<RelayEvent<T, U, O, E>>, i: int) -> bool {
    &&& 0 <= i < events.len()
    &&& events[i] is Completed
    &&& forall|j: int| 0 <= j < i ==> !(events[j] is Completed)
}

/// Event `i` is the first failure of the stream.
pub open spec fn first_failure<T, U, O, E>(events: Seq<RelayEvent<T, U, O, E>>, i: int) -> bool {
    &&& 0 <= i < events.len()
    &&& events[i] is Failed
    &&& forall|j: int| 0 <= j < i ==> !(events[j] is Failed)
}

proof fn lemma_relay_run<T, U, O, E>(events: Seq<RelayEvent<T, U, O, E>>)
    ensures
        ({
            let (s, outs) = spec_relay_run(initial_relay::<T>(), events);
            &&& outs.len() == events.len()
            &&& s.last_response_sent <==> exists|j: int|
                0 <= j < events.len() && (#[trigger] events[j]) is Completed
            &&& !s.last_response_sent ==> s.items == items_of(events)
            &&& s.logged_error <==> exists|j: int|
                0 <= j < events.len() && (#[trigger] events[j]) is Failed
            &&& forall|i: int|
                0 <= i < events.len() ==> ((#[trigger] outs[i]).0 is Some <==> first_completion(
                    events,
                    i,
                ))
            &&& forall|i: int|
                0 <= i < events.len() ==> ((#[trigger] outs[i]).0 matches Some((id, items)) ==> id
                    == events[i]->response_id@ && items == items_of(events.take(i)))
            &&& forall|i: int|
                0 <= i < events.len() ==> ((#[trigger] outs[i]).1 <==> first_failure(events, i))
        }),
    decreases events.len(),
{
    if events.len() > 0 {
        let init = events.drop_last();
        let n = events.len() - 1;
        lemma_relay_run(init);
        let (mid, outs0) = spec_relay_run(initial_relay::<T>(), init);
        let (s, outs) = spec_relay_run(initial_relay::<T>(), events);
        let e = events.last();
        assert(events.take(n) =~= init);
        assert forall|j: int| 0 <= j < n implies events[j] == init[j] by {}
        assert(s.last_response_sent <==> exists|j: int|
            0 <= j < events.len() && (#[trigger] events[j]) is Completed) by {
            if mid.last_response_sent {
                let j = choose|j: int| 0 <= j < init.len() && (#[trigger] init[j]) is Completed;
                assert(events[j] is Completed);
            }
            if exists|j: int| 0 <= j < events.len() && (#[trigger] events[j]) is Completed {
                let j = choose|j: int| 0 <= j < events.len() && (#[trigger] events[j]) is Completed;
                if j < n {
                    assert(init[j] is Completed);
                }
            }
        }
        assert(s.logged_error <==> exists|j: int|
            0 <= j < events.len() && (#[trigger] events[j]) is Failed) by {
            if mid.logged_error {
                let j = choose|j: int| 0 <= j < init.len() && (#[trigger] init[j]) is Failed;
                assert(events[j] is Failed);
            }
            if exists|j: int| 0 <= j < events.len() && (#[trigger] events[j]) is Failed {
                let j = choose|j: int| 0 <= j < events.len() && (#[trigger] events[j]) is Failed;
                if j < n {
                    assert(init[j] is Failed);
                }
            }
        }
        assert forall|i: int| 0 <= i < events.len() implies {
            &&& ((#[trigger] outs[i]).0 is Some <==> first_completion(events, i))
            &&& (outs[i].0 matches Some((id, items)) ==> id == events[i]->response_id@ && items
                == items_of(events.take(i)))
            &&& (outs[i].1 <==> first_failure(events, i))
        } by {
            if i < n {
                assert(outs[i] == outs0[i]);
                assert(events.take(i) =~= init.take(i));
                assert(first_completion(events, i) == first_completion(init, i));
                assert(first_failure(events, i) == first_failure(init, i));
            } else {
                assert(outs[i] == spec_relay_step(mid, e).1);
                if !mid.last_response_sent {
                    assert forall|j: int| 0 <= j < i implies !(events[j] is Completed) by {
                        assert(events[j] == init[j]);
                    }
                } else {
                    let j = choose|j: int| 0 <= j < init.len() && (#[trigger] init[j]) is Completed;
                    assert(events[j] is Completed);
                }
                if !mid.logged_error {
                    assert forall|j: int| 0 <= j < i implies !(events[j] is Failed) by {
                        assert(events[j] == init[j]);
                    }
                } else {
                    let j = choose|j: int| 0 <= j < init.len() && (#[trigger] init[j]) is Failed;
                    assert(events[j] is Failed);
                }
            }
        }
    }
}

/// The last response of a stream is handed over exactly once, at its first
/// completion (never, when nothing completes), with that completion's
/// response id and every output item received before it; the first
/// failure, and only it, is logged.
pub proof fn law_last_response_handed_over_once<T, U, O, E>(events: Seq<RelayEvent<T, U, O, E>>)
    ensures
        ({
            let outs = spec_relay_run(initial_relay::<T>(), events).1;
            &&& outs.len() == events.len()
            &&& forall|i: int|
                0 <= i < events.len() ==> ((#[trigger] outs[i]).0 is Some <==> first_completion(
                    events,
                    i,
                ))
            &&& forall|i: int|
                0 <= i < events.len() ==> ((#[trigger] outs[i]).0 matches Some((id, items)) ==> id
                    == events[i]->response_id@ && items == items_of(events.take(i)))
            &&& forall|i: int|
                0 <= i < events.len() ==> ((#[trigger] outs[i]).1 <==> first_failure(events, i))
        }),
{
    lemma_relay_run(events);
}

/// A request sent as a delta loses nothing: the previous input, the items
/// the previous response added and the delta make up the new input exactly,
/// and the delta is non-empty unless empty deltas are allowed.
pub proof fn law_incremental_delta_rebuilds_the_input(
    previous_input: Seq<u64>,
    properties_match: bool,
    current_input: Seq<u64>,
    response_items: Seq<u64>,
    allow_empty_delta: bool,
)
    ensures
        spec_incremental_start(
            Some(previous_input),
            properties_match,
            current_input,
            response_items,
            allow_empty_delta,
        ) matches Some(k) ==> {
            &&& properties_match
            &&& k == previous_input.len() + response_items.len()
            &&& previous_input + response_items + current_input.skip(k) == current_input
            &&& (!allow_empty_delta ==> current_input.skip(k).len() > 0)
        },
{
    if let Some(k) = spec_incremental_start(
        Some(previous_input),
        properties_match,
        current_input,
        response_items,
        allow_empty_delta,
    ) {
        let baseline = previous_input + response_items;
        assert(current_input.take(k) == baseline);
        assert(baseline + current_input.skip(k) =~= current_input) by {
            assert forall|i: int| 0 <= i < current_input.len() implies (baseline
                + current_input.skip(k))[i] == current_input[i] by {
                if i < k {
                    assert(current_input.take(k)[i] == current_input[i]);
                }
            }
        }
    }
}

/// Every tool output, of a function or of a custom tool, becomes exactly
/// one chat message, with role `tool`, the content
/// `Tool output for <call id>:\n<output>` and no tool calls: a custom
/// tool's output is converted as a function's output is. Likewise a custom
/// tool's call is converted as a function call whose arguments are the
/// tool's input.
pub proof fn law_tool_outputs_become_tool_messages(
    call_id: String,
    output: String,
    name: String,
    input: String,
)
    ensures
        spec_item_messages(ResponseItem::FunctionCallOutput { call_id, output }) == Some(
            seq![("tool"@, "Tool output for "@ + call_id@ + ":\n"@ + output@, None::<Seq<CallView>>)],
        ),
        spec_item_messages(ResponseItem::CustomToolCallOutput { call_id, output }) == Some(
            seq![("tool"@, "Tool output for "@ + call_id@ + ":\n"@ + output@, None::<Seq<CallView>>)],
        ),
        spec_item_messages(ResponseItem::CustomToolCall { name, input }) == spec_item_messages(
            ResponseItem::FunctionCall { name, arguments: input },
        ),
{
}

/// Every `solai provider` subcommand hands the Node.js provider CLI an
/// argument list that starts with the subcommand's own name.
pub proof fn law_provider_args_start_with_subcommand_name(cmd: ProviderSubcommand)
    ensures
        spec_provider_args(cmd).len() > 0,
        cmd is Enable ==> spec_provider_args(cmd)[0] == "enable"@,
        cmd is Disable ==> spec_provider_args(cmd)[0] == "disable"@,
        cmd is Status ==> spec_provider_args(cmd)[0] == "status"@,
        cmd is Daemon ==> spec_provider_args(cmd)[0] == "daemon"@,
        cmd is Price ==> spec_provider_args(cmd)[0] == "price"@,
        cmd is Schedule ==> spec_provider_args(cmd)[0] == "schedule"@,
        cmd is Register ==> spec_provider_args(cmd)[0] == "register"@,
        cmd is Probe ==> spec_provider_args(cmd)[0] == "probe"@,
        cmd is List ==> spec_provider_args(cmd)[0] == "list"@,
        cmd is Refresh ==> spec_provider_args(cmd)[0] == "refresh"@,
        cmd is Quote ==> spec_provider_args(cmd)[0] == "quote"@,
        cmd is Rent ==> spec_provider_args(cmd)[0] == "rent"@,
        cmd is Leases ==> spec_provider_args(cmd)[0] == "leases"@,
        cmd is Lease ==> spec_provider_args(cmd)[0] == "lease"@,
        cmd is Release ==> spec_provider_args(cmd)[0] == "release"@,
        cmd is Run ==> spec_provider_args(cmd)[0] == "run"@,
        cmd is Remove ==> spec_provider_args(cmd)[0] == "remove"@,
{
}

/// Every `solai marketplace` subcommand hands the Node.js provider CLI an
/// argument list that starts with the subcommand's own name.
pub proof fn law_marketplace_args_start_with_subcommand_name(cmd: SolaiMarketplaceSubcommand)
    ensures
        spec_marketplace_args(cmd).len() > 0,
        cmd is Register ==> spec_marketplace_args(cmd)[0] == "register"@,
        cmd is Probe ==> spec_marketplace_args(cmd)[0] == "probe"@,
        cmd is List ==> spec_marketplace_args(cmd)[0] == "list"@,
        cmd is Refresh ==> spec_marketplace_args(cmd)[0] == "refresh"@,
        cmd is Quote ==> spec_marketplace_args(cmd)[0] == "quote"@,
        cmd is Rent ==> spec_marketplace_args(cmd)[0] == "rent"@,
        cmd is Leases ==> spec_marketplace_args(cmd)[0] == "leases"@,
        cmd is Lease ==> spec_marketplace_args(cmd)[0] == "lease"@,
        cmd is Release ==> spec_marketplace_args(cmd)[0] == "release"@,
        cmd is Run ==> spec_marketplace_args(cmd)[0] == "run"@,
        cmd is Remove ==> spec_marketplace_args(cmd)[0] == "remove"@,
{
}

/// A session is in YOLO mode only when approvals are never asked and
/// nothing is sandboxed: a restricted file system or a restricted network
/// rules it out, whatever else holds; with approvals never asked, a
/// disabled sandbox, or a managed profile with an unrestricted file system
/// and enabled network, is YOLO mode.
pub proof fn law_yolo_only_without_any_sandbox(
    approval_policy: AskForApproval,
    profile: PermissionProfile,
    file_system: ManagedFileSystemPermissions,
    network: NetworkSandboxPolicy,
)
    ensures
        spec_has_yolo_permissions(approval_policy, profile) ==> approval_policy
            == AskForApproval::Never,
        !spec_has_yolo_permissions(
            approval_policy,
            PermissionProfile::Managed {
                file_system: ManagedFileSystemPermissions::Restricted,
                network,
            },
        ),
        !spec_has_yolo_permissions(
            approval_policy,
            PermissionProfile::Managed { file_system, network: NetworkSandboxPolicy::Restricted },
        ),
        spec_has_yolo_permissions(AskForApproval::Never, PermissionProfile::Disabled),
        spec_has_yolo_permissions(
            AskForApproval::Never,
            PermissionProfile::Managed {
                file_system: ManagedFileSystemPermissions::Unrestricted,
                network: NetworkSandboxPolicy::Enabled,
            },
        ),
{
}

/// A capability list supports tools exactly when `tools` occurs in it, at
/// any position: a list that holds `tools` anywhere supports tools, one
/// without it does not, and reordering the list changes nothing.
pub proof fn law_tools_capability_anywhere(capabilities: Vec<String>, reordered: Vec<String>)
    requires
        capabilities@.to_multiset() == reordered@.to_multiset(),
    ensures
        forall|i: int|
            0 <= i < capabilities@.len() && #[trigger] capabilities@[i]@ == "tools"@
                ==> tools_support(Some(capabilities)) == Some(true),
        (forall|i: int| 0 <= i < capabilities@.len() ==> #[trigger] capabilities@[i]@ != "tools"@)
            ==> tools_support(Some(capabilities)) == Some(false),
        tools_support(Some(capabilities)) == tools_support(Some(reordered)),
{
    broadcast use vstd::seq_lib::group_to_multiset_ensures;

    let a = capabilities@;
    let b = reordered@;
    if exists|i: int| 0 <= i < a.len() && a[i]@ == "tools"@ {
        let i = choose|i: int| 0 <= i < a.len() && a[i]@ == "tools"@;
        assert(a.contains(a[i]));
        assert(b.to_multiset().count(a[i]) > 0);
        assert(b.contains(a[i]));
        let j = choose|j: int| 0 <= j < b.len() && b[j] == a[i];
        assert(b[j]@ == "tools"@);
    }
    if exists|j: int| 0 <= j < b.len() && b[j]@ == "tools"@ {
        let j = choose|j: int| 0 <= j < b.len() && b[j]@ == "tools"@;
        assert(b.contains(b[j]));
        assert(a.to_multiset().count(b[j]) > 0);
        assert(a.contains(b[j]));
        let i = choose|i: int| 0 <= i < a.len() && a[i] == b[j];
        assert(a[i]@ == "tools"@);
    }
}

/// How the other conversation items are converted: a message keeps its
/// role, but `developer` becomes `system`, and carries its content's text,
/// with no tool calls (and is refused when its content holds an image); a
/// function call becomes one assistant message with empty text and one
/// tool call of that name, whose arguments are the call's text, as JSON
/// exactly when it parses as JSON; items without a chat counterpart add no
/// message.
pub proof fn law_conversation_items_become_messages(
    role: String,
    content: Vec<ContentItem>,
    name: String,
    arguments: String,
)
    ensures
        spec_content_text(content@) matches Some(text) ==> spec_item_messages(
            ResponseItem::Message { role, content },
        ) == Some(
            seq![(
                if role@ == "developer"@ {
                    "system"@
                } else {
                    role@
                },
                text,
                None::<Seq<CallView>>,
            )],
        ),
        spec_content_text(content@) is None ==> spec_item_messages(
            ResponseItem::Message { role, content },
        ) is None,
        spec_item_messages(ResponseItem::FunctionCall { name, arguments }) == Some(
            seq![(
                "assistant"@,
                Seq::<char>::empty(),
                Some(
                    seq![(
                        name@,
                        if json_parses(arguments@) {
                            ToolArgumentsView::Json(arguments@)
                        } else {
                            ToolArgumentsView::Text(arguments@)
                        },
                    )],
                ),
            )],
        ),
        spec_item_messages(ResponseItem::Other) == Some(Seq::<(Seq<char>, Seq<char>, Option<Seq<CallView>>)>::empty()),
{
}

/// The text of a message's content: empty for no content, a single text as
/// it is, each further text on a line of its own after what came before;
/// an image anywhere refuses the content.
pub proof fn law_content_text_is_texts_line_by_line(
    content: Seq<ContentItem>,
    text: String,
    image_url: String,
)
    ensures
        spec_content_text(Seq::empty()) == Some(Seq::<char>::empty()),
        spec_content_text(seq![ContentItem::InputText { text }]) == Some(text@),
        spec_content_text(seq![ContentItem::OutputText { text }]) == Some(text@),
        content.len() > 0 ==> (spec_content_text(content) matches Some(before) ==> spec_content_text(
            content.push(ContentItem::InputText { text }),
        ) == Some(before + "\n"@ + text@)),
        content.len() > 0 ==> (spec_content_text(content) matches Some(before) ==> spec_content_text(
            content.push(ContentItem::OutputText { text }),
        ) == Some(before + "\n"@ + text@)),
        spec_content_text(content.push(ContentItem::InputImage { image_url })) is None,
        spec_content_text(seq![ContentItem::InputImage { image_url }] + content) is None,
{
    let one = seq![ContentItem::InputText { text }];
    assert(one.drop_last() =~= Seq::<ContentItem>::empty());
    assert(!crate::ollama_chat::has_image(one)) by {
        assert forall|i: int| 0 <= i < one.len() implies !(one[i] is InputImage) by {}
    }
    let two = seq![ContentItem::OutputText { text }];
    assert(two.drop_last() =~= Seq::<ContentItem>::empty());
    assert(!crate::ollama_chat::has_image(two)) by {
        assert forall|i: int| 0 <= i < two.len() implies !(two[i] is InputImage) by {}
    }
    assert(!crate::ollama_chat::has_image(Seq::<ContentItem>::empty()));
    let img = ContentItem::InputImage { image_url };
    assert(content.push(img)[content.len() as int] is InputImage);
    assert((seq![img] + content)[0] is InputImage);
    if content.len() > 0 && spec_content_text(content) is Some {
        let texts = crate::ollama_chat::content_texts(content);
        lemma_content_texts_nonempty_without_image(content);
        let a = content.push(ContentItem::InputText { text });
        let b = content.push(ContentItem::OutputText { text });
        assert(a.drop_last() =~= content);
        assert(b.drop_last() =~= content);
        assert(!crate::ollama_chat::has_image(a)) by {
            assert forall|i: int| 0 <= i < a.len() implies !(a[i] is InputImage) by {
                if i < content.len() {
                    assert(a[i] == content[i]);
                }
            }
        }
        assert(!crate::ollama_chat::has_image(b)) by {
            assert forall|i: int| 0 <= i < b.len() implies !(b[i] is InputImage) by {
                if i < content.len() {
                    assert(b[i] == content[i]);
                }
            }
        }
        assert(crate::ollama_chat::content_texts(a) == texts.push(text@));
        assert(crate::ollama_chat::content_texts(b) == texts.push(text@));
        assert(texts.push(text@).drop_last() =~= texts);
    }
}

proof fn lemma_content_texts_nonempty_without_image(content: Seq<ContentItem>)
    requires
        !crate::ollama_chat::has_image(content),
    ensures
        crate::ollama_chat::content_texts(content).len() == content.len(),
    decreases content.len(),
{
    if content.len() > 0 {
        let init = content.drop_last();
        assert(!crate::ollama_chat::has_image(init)) by {
            assert forall|i: int| 0 <= i < init.len() implies !(init[i] is InputImage) by {
                assert(init[i] == content[i]);
            }
        }
        lemma_content_texts_nonempty_without_image(init);
        assert(!(content[content.len() - 1] is InputImage));
    }
}

/// Asking for JSON output adds `--json` at the end of the arguments, and
/// nothing else changes.
pub proof fn law_json_flag_ends_the_arguments(
    list: ProviderListArgs,
    refresh: ProviderRefreshArgs,
    quote: ProviderQuoteArgs,
    rent: ProviderRentArgs,
    leases: ProviderLeasesArgs,
    lease: ProviderLeaseArgs,
)
    ensures
        spec_provider_args(ProviderSubcommand::List(ProviderListArgs { json: true, ..list }))
            == spec_provider_args(
            ProviderSubcommand::List(ProviderListArgs { json: false, ..list }),
        ).push("--json"@),
        spec_provider_args(ProviderSubcommand::Refresh(ProviderRefreshArgs { json: true }))
            == spec_provider_args(
            ProviderSubcommand::Refresh(ProviderRefreshArgs { json: false }),
        ).push("--json"@),
        spec_provider_args(ProviderSubcommand::Quote(ProviderQuoteArgs { json: true, ..quote }))
            == spec_provider_args(
            ProviderSubcommand::Quote(ProviderQuoteArgs { json: false, ..quote }),
        ).push("--json"@),
        spec_provider_args(ProviderSubcommand::Rent(ProviderRentArgs { json: true, ..rent }))
            == spec_provider_args(
            ProviderSubcommand::Rent(ProviderRentArgs { json: false, ..rent }),
        ).push("--json"@),
        spec_provider_args(ProviderSubcommand::Leases(ProviderLeasesArgs { json: true }))
            == spec_provider_args(
            ProviderSubcommand::Leases(ProviderLeasesArgs { json: false }),
        ).push("--json"@),
        spec_provider_args(ProviderSubcommand::Lease(ProviderLeaseArgs { json: true, ..lease }))
            == spec_provider_args(
            ProviderSubcommand::Lease(ProviderLeaseArgs { json: false, ..lease }),
        ).push("--json"@),
{
    assert(spec_provider_args(ProviderSubcommand::List(ProviderListArgs { json: true, ..list }))
        =~= spec_provider_args(
        ProviderSubcommand::List(ProviderListArgs { json: false, ..list }),
    ).push("--json"@));
    assert(spec_provider_args(ProviderSubcommand::Refresh(ProviderRefreshArgs { json: true }))
        =~= spec_provider_args(
        ProviderSubcommand::Refresh(ProviderRefreshArgs { json: false }),
    ).push("--json"@));
    assert(spec_provider_args(ProviderSubcommand::Quote(ProviderQuoteArgs { json: true, ..quote }))
        =~= spec_provider_args(
        ProviderSubcommand::Quote(ProviderQuoteArgs { json: false, ..quote }),
    ).push("--json"@));
    assert(spec_provider_args(ProviderSubcommand::Rent(ProviderRentArgs { json: true, ..rent }))
        =~= spec_provider_args(
        ProviderSubcommand::Rent(ProviderRentArgs { json: false, ..rent }),
    ).push("--json"@));
    assert(spec_provider_args(ProviderSubcommand::Leases(ProviderLeasesArgs { json: true }))
        =~= spec_provider_args(
        ProviderSubcommand::Leases(ProviderLeasesArgs { json: false }),
    ).push("--json"@));
    assert(spec_provider_args(ProviderSubcommand::Lease(ProviderLeaseArgs { json: true, ..lease }))
        =~= spec_provider_args(
        ProviderSubcommand::Lease(ProviderLeaseArgs { json: false, ..lease }),
    ).push("--json"@));
}

/// The values a subcommand names follow its name in order: the lease of
/// `lease` and `release`, the key of `remove`, the endpoint of `probe`,
/// the model and price of `price`, the model of `run` after `--model`.
pub proof fn law_positional_arguments_follow_the_name(cmd: ProviderSubcommand)
    ensures
        cmd matches ProviderSubcommand::Release(a) ==> spec_provider_args(cmd) == seq![
            "release"@,
            a.lease_id@,
        ],
        cmd matches ProviderSubcommand::Lease(a) ==> spec_provider_args(cmd)[1] == a.lease_id@,
        cmd matches ProviderSubcommand::Remove(a) ==> spec_provider_args(cmd) == seq![
            "remove"@,
            a.provider_public_key@,
        ],
        cmd matches ProviderSubcommand::Probe(a) ==> spec_provider_args(cmd)[1] == a.endpoint@,
        cmd matches ProviderSubcommand::Price(a) ==> spec_provider_args(cmd) == seq![
            "price"@,
            a.model@,
            a.solai_per_hour@,
        ],
        cmd matches ProviderSubcommand::Run(a) ==> spec_provider_args(cmd)[1] == "--model"@
            && spec_provider_args(cmd)[2] == a.model@,
        cmd matches ProviderSubcommand::Schedule(a) ==> spec_provider_args(cmd) == seq![
            "schedule"@,
            "--from"@,
            a.from@,
            "--to"@,
            a.to@,
        ],
{
}

/// An option given to `list`, `quote` or `rent` is passed as its flag
/// followed by its value, right after the subcommand's name when it is the
/// first option given: the model after `--model`, the listing choice after
/// `--choice` and the rental hours after `--hours`, in decimal; and
/// `rent` always passes its hours.
pub proof fn law_option_values_follow_their_flags(
    list: ProviderListArgs,
    quote: ProviderQuoteArgs,
    rent: ProviderRentArgs,
)
    ensures
        list.model matches Some(m) ==> spec_provider_args(ProviderSubcommand::List(list)).subrange(
            1,
            3,
        ) == seq!["--model"@, m@],
        quote.model matches Some(m) ==> spec_provider_args(
            ProviderSubcommand::Quote(quote),
        ).subrange(1, 3) == seq!["--model"@, m@],
        quote.model is None ==> (quote.choice matches Some(c) ==> spec_provider_args(
            ProviderSubcommand::Quote(quote),
        ).subrange(1, 3) == seq!["--choice"@, crate::text::decimal(c as nat)]),
        rent.model matches Some(m) ==> spec_provider_args(ProviderSubcommand::Rent(rent)).subrange(
            1,
            3,
        ) == seq!["--model"@, m@],
        rent.model is None ==> (rent.choice matches Some(c) ==> spec_provider_args(
            ProviderSubcommand::Rent(rent),
        ).subrange(1, 3) == seq!["--choice"@, crate::text::decimal(c as nat)]),
        rent.model is None && rent.choice is None ==> spec_provider_args(
            ProviderSubcommand::Rent(rent),
        ).subrange(1, 3) == seq!["--hours"@, crate::text::decimal(rent.hours as nat)],
{
    let l = spec_provider_args(ProviderSubcommand::List(list));
    let q = spec_provider_args(ProviderSubcommand::Quote(quote));
    let r = spec_provider_args(ProviderSubcommand::Rent(rent));
    if list.model is Some {
        assert(l.subrange(1, 3) =~= seq!["--model"@, list.model->0@]);
    }
    if quote.model is Some {
        assert(q.subrange(1, 3) =~= seq!["--model"@, quote.model->0@]);
    } else if quote.choice is Some {
        assert(q.subrange(1, 3) =~= seq![
            "--choice"@,
            crate::text::decimal(quote.choice->0 as nat),
        ]);
    }
    if rent.model is Some {
        assert(r.subrange(1, 3) =~= seq!["--model"@, rent.model->0@]);
    } else if rent.choice is Some {
        assert(r.subrange(1, 3) =~= seq![
            "--choice"@,
            crate::text::decimal(rent.choice->0 as nat),
        ]);
    } else {
        assert(r.subrange(1, 3) =~= seq!["--hours"@, crate::text::decimal(rent.hours as nat)]);
    }
}

} // verus!
