//! The `solai provider` and `solai marketplace` subcommands, and the
//! argument lists they hand to the Node.js provider CLI.
//!
//! Prices are carried as the decimal text of the number the user gave.

use vstd::prelude::*;

verus! {

/// The text of a list of arguments.
pub open spec fn args_view(args: Seq<String>) -> Seq<Seq<char>> {
    args.map_values(|s: String| s@)
}

/// `flag value` when the value is present, nothing otherwise.
pub open spec fn opt_flag(flag: Seq<char>, value: Option<String>) -> Seq<Seq<char>> {
    match value {
        Some(v) => seq![flag, v@],
        None => Seq::empty(),
    }
}

/// `flag n` (in decimal) when the number is present, nothing otherwise.
pub open spec fn opt_num(flag: Seq<char>, value: Option<u64>) -> Seq<Seq<char>> {
    match value {
        Some(n) => seq![flag, crate::text::decimal(n as nat)],
        None => Seq::empty(),
    }
}

/// `flag` when set, nothing otherwise.
pub open spec fn bool_flag(flag: Seq<char>, on: bool) -> Seq<Seq<char>> {
    if on {
        seq![flag]
    } else {
        Seq::empty()
    }
}

fn push_lit(args: &mut Vec<String>, s: &str)
    ensures
        args_view(final(args)@) == args_view(old(args)@).push(s@),
{
    let ghost before = args@;
    args.push(String::from_str(s));
    assert(args_view(args@) =~= args_view(before).push(s@));
}

fn push_owned(args: &mut Vec<String>, s: String)
    ensures
        args_view(final(args)@) == args_view(old(args)@).push(s@),
{
    let ghost before = args@;
    let ghost v = s@;
    args.push(s);
    assert(args_view(args@) =~= args_view(before).push(v));
}

/// Appends `flag value` when `value` is present.
pub fn push_optional_flag(args: &mut Vec<String>, flag: &str, value: Option<String>)
    ensures
        args_view(final(args)@) == args_view(old(args)@) + opt_flag(flag@, value),
{
    let ghost v = value;
    if let Some(value) = value {
        push_lit(args, flag);
        push_owned(args, value);
    }
    assert(args_view(args@) =~= args_view(old(args)@) + opt_flag(flag@, v));
}

fn push_bool_flag(args: &mut Vec<String>, flag: &str, on: bool)
    ensures
        args_view(final(args)@) == args_view(old(args)@) + bool_flag(flag@, on),
{
    if on {
        push_lit(args, flag);
    }
    assert(args_view(args@) =~= args_view(old(args)@) + bool_flag(flag@, on));
}

// ------------------------------------------------------------------
// solai provider
// ------------------------------------------------------------------

pub struct ProviderPriceArgs {
    pub model: String,
    pub solai_per_hour: String,
}

pub struct ProviderScheduleArgs {
    pub from: String,
    pub to: String,
}

pub struct ProviderRegisterArgs {
    pub endpoint: Option<String>,
    pub name: Option<String>,
}

pub struct ProviderProbeArgs {
    pub endpoint: String,
    pub name: Option<String>,
}

pub struct ProviderListArgs {
    pub model: Option<String>,
    pub max_price: Option<String>,
    pub available: bool,
    pub json: bool,
}

pub struct ProviderRefreshArgs {
    pub json: bool,
}

pub struct ProviderQuoteArgs {
    pub model: Option<String>,
    /// The number of a provider in the last listing.
    pub choice: Option<u64>,
    pub hours: Option<u64>,
    pub max_price: Option<String>,
    pub json: bool,
}

pub struct ProviderRentArgs {
    pub model: Option<String>,
    /// The number of a provider in the last listing.
    pub choice: Option<u64>,
    pub hours: u64,
    pub provider: Option<String>,
    pub max_price: Option<String>,
    pub json: bool,
}

pub struct ProviderLeasesArgs {
    pub json: bool,
}

pub struct ProviderLeaseArgs {
    pub lease_id: String,
    pub json: bool,
}

pub struct ProviderReleaseArgs {
    pub lease_id: String,
}

pub struct ProviderRunArgs {
    pub model: String,
    pub prompt: Option<String>,
    pub prompt_file: Option<String>,
    pub lease: Option<String>,
    pub provider: Option<String>,
    pub max_price: Option<String>,
}

pub struct ProviderRemoveArgs {
    pub provider_public_key: String,
}

/// A `solai provider` subcommand.
pub enum ProviderSubcommand {
    Enable,
    Disable,
    Status,
    Price(ProviderPriceArgs),
    Schedule(ProviderScheduleArgs),
    Register(ProviderRegisterArgs),
    Probe(ProviderProbeArgs),
    List(ProviderListArgs),
    Refresh(ProviderRefreshArgs),
    Quote(ProviderQuoteArgs),
    Rent(ProviderRentArgs),
    Leases(ProviderLeasesArgs),
    Lease(ProviderLeaseArgs),
    Release(ProviderReleaseArgs),
    Run(ProviderRunArgs),
    Remove(ProviderRemoveArgs),
    Daemon,
}

/// The `solai provider` command line.
pub struct ProviderCli {
    pub subcommand: ProviderSubcommand,
}

/// The arguments handed to the Node.js provider CLI for a `solai provider`
/// subcommand.
pub open spec fn spec_provider_args(cmd: ProviderSubcommand) -> Seq<Seq<char>> {
    match cmd {
        ProviderSubcommand::Enable => seq!["enable"@],
        ProviderSubcommand::Disable => seq!["disable"@],
        ProviderSubcommand::Status => seq!["status"@],
        ProviderSubcommand::Daemon => seq!["daemon"@],
        ProviderSubcommand::Price(a) => seq!["price"@, a.model@, a.solai_per_hour@],
        ProviderSubcommand::Schedule(a) => seq!["schedule"@, "--from"@, a.from@, "--to"@, a.to@],
        ProviderSubcommand::Register(a) => seq!["register"@] + opt_flag("--endpoint"@, a.endpoint)
            + opt_flag("--name"@, a.name),
        ProviderSubcommand::Probe(a) => seq!["probe"@, a.endpoint@] + opt_flag("--name"@, a.name),
        ProviderSubcommand::List(a) => seq!["list"@] + opt_flag("--model"@, a.model) + opt_flag(
            "--max-price"@,
            a.max_price,
        ) + bool_flag("--available"@, a.available) + bool_flag("--json"@, a.json),
        ProviderSubcommand::Refresh(a) => seq!["refresh"@] + bool_flag("--json"@, a.json),
        ProviderSubcommand::Quote(a) => seq!["quote"@] + opt_flag("--model"@, a.model) + opt_num(
            "--choice"@,
            a.choice,
        ) + opt_num("--hours"@, a.hours) + opt_flag("--max-price"@, a.max_price) + bool_flag(
            "--json"@,
            a.json,
        ),
        ProviderSubcommand::Rent(a) => seq!["rent"@] + opt_flag("--model"@, a.model) + opt_num(
            "--choice"@,
            a.choice,
        ) + seq!["--hours"@, crate::text::decimal(a.hours as nat)] + opt_flag(
            "--provider"@,
            a.provider,
        ) + opt_flag("--max-price"@, a.max_price) + bool_flag("--json"@, a.json),
        ProviderSubcommand::Leases(a) => seq!["leases"@] + bool_flag("--json"@, a.json),
        ProviderSubcommand::Lease(a) => seq!["lease"@, a.lease_id@] + bool_flag("--json"@, a.json),
        ProviderSubcommand::Release(a) => seq!["release"@, a.lease_id@],
        ProviderSubcommand::Run(a) => seq!["run"@, "--model"@, a.model@] + opt_flag(
            "--prompt"@,
            a.prompt,
        ) + opt_flag("--prompt-file"@, a.prompt_file) + opt_flag("--lease"@, a.lease) + opt_flag(
            "--provider"@,
            a.provider,
        ) + opt_flag("--max-price"@, a.max_price),
        ProviderSubcommand::Remove(a) => seq!["remove"@, a.provider_public_key@],
    }
}

impl ProviderCli {
    /// The arguments for the Node.js provider CLI that carry out this
    /// command.
    pub fn node_cli_args(self) -> (r: Vec<String>)
        ensures
            args_view(r@) == spec_provider_args(self.subcommand),
    {
        let ghost cmd = self.subcommand;
        let mut args: Vec<String> = Vec::new();
        assert(args_view(args@) =~= Seq::empty());
        match self.subcommand {
            ProviderSubcommand::Enable => push_lit(&mut args, "enable"),
            ProviderSubcommand::Disable => push_lit(&mut args, "disable"),
            ProviderSubcommand::Status => push_lit(&mut args, "status"),
            ProviderSubcommand::Daemon => push_lit(&mut args, "daemon"),
            ProviderSubcommand::Price(ProviderPriceArgs { model, solai_per_hour }) => {
                push_lit(&mut args, "price");
                push_owned(&mut args, model);
                push_owned(&mut args, solai_per_hour);
            },
            ProviderSubcommand::Schedule(ProviderScheduleArgs { from, to }) => {
                push_lit(&mut args, "schedule");
                push_lit(&mut args, "--from");
                push_owned(&mut args, from);
                push_lit(&mut args, "--to");
                push_owned(&mut args, to);
            },
            ProviderSubcommand::Register(ProviderRegisterArgs { endpoint, name }) => {
                push_lit(&mut args, "register");
                push_optional_flag(&mut args, "--endpoint", endpoint);
                push_optional_flag(&mut args, "--name", name);
            },
            ProviderSubcommand::Probe(ProviderProbeArgs { endpoint, name }) => {
                push_lit(&mut args, "probe");
                push_owned(&mut args, endpoint);
                push_optional_flag(&mut args, "--name", name);
            },
            ProviderSubcommand::List(ProviderListArgs { model, max_price, available, json }) => {
                push_lit(&mut args, "list");
                push_optional_flag(&mut args, "--model", model);
                push_optional_flag(&mut args, "--max-price", max_price);
                push_bool_flag(&mut args, "--available", available);
                push_bool_flag(&mut args, "--json", json);
            },
            ProviderSubcommand::Refresh(ProviderRefreshArgs { json }) => {
                push_lit(&mut args, "refresh");
                push_bool_flag(&mut args, "--json", json);
            },
            ProviderSubcommand::Quote(
                ProviderQuoteArgs { model, choice, hours, max_price, json },
            ) => {
                push_lit(&mut args, "quote");
                push_optional_flag(&mut args, "--model", model);
                push_optional_num(&mut args, "--choice", choice);
                push_optional_num(&mut args, "--hours", hours);
                push_optional_flag(&mut args, "--max-price", max_price);
                push_bool_flag(&mut args, "--json", json);
            },
            ProviderSubcommand::Rent(
                ProviderRentArgs { model, choice, hours, provider, max_price, json },
            ) => {
                push_lit(&mut args, "rent");
                push_optional_flag(&mut args, "--model", model);
                push_optional_num(&mut args, "--choice", choice);
                push_lit(&mut args, "--hours");
                push_u64(&mut args, hours);
                push_optional_flag(&mut args, "--provider", provider);
                push_optional_flag(&mut args, "--max-price", max_price);
                push_bool_flag(&mut args, "--json", json);
            },
            ProviderSubcommand::Leases(ProviderLeasesArgs { json }) => {
                push_lit(&mut args, "leases");
                push_bool_flag(&mut args, "--json", json);
            },
            ProviderSubcommand::Lease(ProviderLeaseArgs { lease_id, json }) => {
                push_lit(&mut args, "lease");
                push_owned(&mut args, lease_id);
                push_bool_flag(&mut args, "--json", json);
            },
            ProviderSubcommand::Release(ProviderReleaseArgs { lease_id }) => {
                push_lit(&mut args, "release");
                push_owned(&mut args, lease_id);
            },
            ProviderSubcommand::Run(
                ProviderRunArgs { model, prompt, prompt_file, lease, provider, max_price },
            ) => {
                push_lit(&mut args, "run");
                push_lit(&mut args, "--model");
                push_owned(&mut args, model);
                push_optional_flag(&mut args, "--prompt", prompt);
                push_optional_flag(&mut args, "--prompt-file", prompt_file);
                push_optional_flag(&mut args, "--lease", lease);
                push_optional_flag(&mut args, "--provider", provider);
                push_optional_flag(&mut args, "--max-price", max_price);
            },
            ProviderSubcommand::Remove(ProviderRemoveArgs { provider_public_key }) => {
                push_lit(&mut args, "remove");
                push_owned(&mut args, provider_public_key);
            },
        }
        assert(args_view(args@) =~= spec_provider_args(cmd));
        args
    }
}

// ------------------------------------------------------------------
// solai marketplace
// ------------------------------------------------------------------

pub struct RegisterArgs {
    pub endpoint: Option<String>,
    pub name: Option<String>,
}

pub struct ProbeArgs {
    pub endpoint: String,
    pub name: Option<String>,
}

pub struct ListArgs {
    pub model: Option<String>,
    pub max_price: Option<String>,
    pub available: bool,
    pub json: bool,
}

pub struct RefreshArgs {
    pub json: bool,
}

pub struct QuoteArgs {
    pub model: Option<String>,
    /// The number of a provider in the last listing.
    pub choice: Option<u64>,
    pub hours: Option<u64>,
    pub max_price: Option<String>,
    pub json: bool,
}

pub struct RentArgs {
    pub model: Option<String>,
    /// The number of a provider in the last listing.
    pub choice: Option<u64>,
    pub hours: u64,
    pub provider: Option<String>,
    pub max_price: Option<String>,
    pub json: bool,
}

pub struct LeasesArgs {
    pub json: bool,
}

pub struct LeaseArgs {
    pub lease_id: String,
    pub json: bool,
}

pub struct ReleaseArgs {
    pub lease_id: String,
}

pub struct RunArgs {
    pub model: String,
    pub prompt: Option<String>,
    pub prompt_file: Option<String>,
    pub lease: Option<String>,
    pub provider: Option<String>,
    pub max_price: Option<String>,
}

pub struct RemoveArgs {
    pub provider_public_key: String,
}

/// A `solai marketplace` subcommand.
pub enum SolaiMarketplaceSubcommand {
    Register(RegisterArgs),
    Probe(ProbeArgs),
    List(ListArgs),
    Refresh(RefreshArgs),
    Quote(QuoteArgs),
    Rent(RentArgs),
    Leases(LeasesArgs),
    Lease(LeaseArgs),
    Release(ReleaseArgs),
    Run(RunArgs),
    Remove(RemoveArgs),
}

/// The `solai marketplace` command line.
pub struct SolaiMarketplaceCli {
    pub subcommand: SolaiMarketplaceSubcommand,
}

/// The arguments handed to the Node.js provider CLI for a
/// `solai marketplace` subcommand.
pub open spec fn spec_marketplace_args(cmd: SolaiMarketplaceSubcommand) -> Seq<Seq<char>> {
    match cmd {
        SolaiMarketplaceSubcommand::Register(a) => seq!["register"@] + opt_flag(
            "--endpoint"@,
            a.endpoint,
        ) + opt_flag("--name"@, a.name),
        SolaiMarketplaceSubcommand::Probe(a) => seq!["probe"@, a.endpoint@] + opt_flag(
            "--name"@,
            a.name,
        ),
        SolaiMarketplaceSubcommand::List(a) => seq!["list"@] + opt_flag("--model"@, a.model)
            + opt_flag("--max-price"@, a.max_price) + bool_flag("--available"@, a.available)
            + bool_flag("--json"@, a.json),
        SolaiMarketplaceSubcommand::Refresh(a) => seq!["refresh"@] + bool_flag("--json"@, a.json),
        SolaiMarketplaceSubcommand::Quote(a) => seq!["quote"@] + opt_flag("--model"@, a.model)
            + opt_num("--choice"@, a.choice) + opt_num("--hours"@, a.hours) + opt_flag(
            "--max-price"@,
            a.max_price,
        ) + bool_flag("--json"@, a.json),
        SolaiMarketplaceSubcommand::Rent(a) => seq!["rent"@] + opt_flag("--model"@, a.model)
            + opt_num("--choice"@, a.choice) + seq![
            "--hours"@,
            crate::text::decimal(a.hours as nat),
        ] + opt_flag("--provider"@, a.provider) + opt_flag("--max-price"@, a.max_price)
            + bool_flag("--json"@, a.json),
        SolaiMarketplaceSubcommand::Leases(a) => seq!["leases"@] + bool_flag("--json"@, a.json),
        SolaiMarketplaceSubcommand::Lease(a) => seq!["lease"@, a.lease_id@] + bool_flag(
            "--json"@,
            a.json,
        ),
        SolaiMarketplaceSubcommand::Release(a) => seq!["release"@, a.lease_id@],
        SolaiMarketplaceSubcommand::Run(a) => seq!["run"@, "--model"@, a.model@] + opt_flag(
            "--prompt"@,
            a.prompt,
        ) + opt_flag("--prompt-file"@, a.prompt_file) + opt_flag("--lease"@, a.lease) + opt_flag(
            "--provider"@,
            a.provider,
        ) + opt_flag("--max-price"@, a.max_price),
        SolaiMarketplaceSubcommand::Remove(a) => seq!["remove"@, a.provider_public_key@],
    }
}

fn push_u64(args: &mut Vec<String>, n: u64)
    ensures
        args_view(final(args)@) == args_view(old(args)@).push(crate::text::decimal(n as nat)),
{
    let mut digits: Vec<char> = Vec::new();
    crate::text::push_decimal(&mut digits, n);
    assert(digits@ =~= crate::text::decimal(n as nat));
    let s = crate::text::string_of(&digits);
    push_owned(args, s);
}

fn push_optional_num(args: &mut Vec<String>, flag: &str, value: Option<u64>)
    ensures
        args_view(final(args)@) == args_view(old(args)@) + opt_num(flag@, value),
{
    if let Some(n) = value {
        push_lit(args, flag);
        push_u64(args, n);
    }
    assert(args_view(args@) =~= args_view(old(args)@) + opt_num(flag@, value));
}

impl SolaiMarketplaceCli {
    /// The arguments for the Node.js provider CLI that carry out this
    /// command.
    pub fn node_cli_args(self) -> (r: Vec<String>)
        ensures
            args_view(r@) == spec_marketplace_args(self.subcommand),
    {
        let ghost cmd = self.subcommand;
        let mut args: Vec<String> = Vec::new();
        assert(args_view(args@) =~= Seq::empty());
        match self.subcommand {
            SolaiMarketplaceSubcommand::Register(RegisterArgs { endpoint, name }) => {
                push_lit(&mut args, "register");
                push_optional_flag(&mut args, "--endpoint", endpoint);
                push_optional_flag(&mut args, "--name", name);
            },
            SolaiMarketplaceSubcommand::Probe(ProbeArgs { endpoint, name }) => {
                push_lit(&mut args, "probe");
                push_owned(&mut args, endpoint);
                push_optional_flag(&mut args, "--name", name);
            },
            SolaiMarketplaceSubcommand::List(ListArgs { model, max_price, available, json }) => {
                push_lit(&mut args, "list");
                push_optional_flag(&mut args, "--model", model);
                push_optional_flag(&mut args, "--max-price", max_price);
                push_bool_flag(&mut args, "--available", available);
                push_bool_flag(&mut args, "--json", json);
            },
            SolaiMarketplaceSubcommand::Refresh(RefreshArgs { json }) => {
                push_lit(&mut args, "refresh");
                push_bool_flag(&mut args, "--json", json);
            },
            SolaiMarketplaceSubcommand::Quote(QuoteArgs { model, choice, hours, max_price, json }) => {
                push_lit(&mut args, "quote");
                push_optional_flag(&mut args, "--model", model);
                push_optional_num(&mut args, "--choice", choice);
                push_optional_num(&mut args, "--hours", hours);
                push_optional_flag(&mut args, "--max-price", max_price);
                push_bool_flag(&mut args, "--json", json);
            },
            SolaiMarketplaceSubcommand::Rent(
                RentArgs { model, choice, hours, provider, max_price, json },
            ) => {
                push_lit(&mut args, "rent");
                push_optional_flag(&mut args, "--model", model);
                push_optional_num(&mut args, "--choice", choice);
                push_lit(&mut args, "--hours");
                push_u64(&mut args, hours);
                push_optional_flag(&mut args, "--provider", provider);
                push_optional_flag(&mut args, "--max-price", max_price);
                push_bool_flag(&mut args, "--json", json);
            },
            SolaiMarketplaceSubcommand::Leases(LeasesArgs { json }) => {
                push_lit(&mut args, "leases");
                push_bool_flag(&mut args, "--json", json);
            },
            SolaiMarketplaceSubcommand::Lease(LeaseArgs { lease_id, json }) => {
                push_lit(&mut args, "lease");
                push_owned(&mut args, lease_id);
                push_bool_flag(&mut args, "--json", json);
            },
            SolaiMarketplaceSubcommand::Release(ReleaseArgs { lease_id }) => {
                push_lit(&mut args, "release");
                push_owned(&mut args, lease_id);
            },
            SolaiMarketplaceSubcommand::Run(
                RunArgs { model, prompt, prompt_file, lease, provider, max_price },
            ) => {
                push_lit(&mut args, "run");
                push_lit(&mut args, "--model");
                push_owned(&mut args, model);
                push_optional_flag(&mut args, "--prompt", prompt);
                push_optional_flag(&mut args, "--prompt-file", prompt_file);
                push_optional_flag(&mut args, "--lease", lease);
                push_optional_flag(&mut args, "--provider", provider);
                push_optional_flag(&mut args, "--max-price", max_price);
            },
            SolaiMarketplaceSubcommand::Remove(RemoveArgs { provider_public_key }) => {
                push_lit(&mut args, "remove");
                push_owned(&mut args, provider_public_key);
            },
        }
        assert(args_view(args@) =~= spec_marketplace_args(cmd));
        args
    }
}

} // verus!
