use solai_coder::cli_args::push_optional_flag;
use solai_coder::cli_args::ListArgs;
use solai_coder::cli_args::ProviderCli;
use solai_coder::cli_args::LeaseArgs;
use solai_coder::cli_args::ProviderLeaseArgs;
use solai_coder::cli_args::ProviderLeasesArgs;
use solai_coder::cli_args::ProviderListArgs;
use solai_coder::cli_args::ProviderQuoteArgs;
use solai_coder::cli_args::ProviderReleaseArgs;
use solai_coder::cli_args::ProviderRentArgs;
use solai_coder::cli_args::ProviderPriceArgs;
use solai_coder::cli_args::ProviderRunArgs;
use solai_coder::cli_args::ProviderScheduleArgs;
use solai_coder::cli_args::ProviderSubcommand;
use solai_coder::cli_args::QuoteArgs;
use solai_coder::cli_args::RentArgs;
use solai_coder::cli_args::RunArgs;
use solai_coder::cli_args::SolaiMarketplaceCli;
use solai_coder::cli_args::SolaiMarketplaceSubcommand;

fn strings(items: &[&str]) -> Vec<String> {
    items.iter().map(|s| s.to_string()).collect()
}

#[test]
fn optional_flag_is_pushed_only_when_present() {
    let mut args = strings(&["list"]);
    push_optional_flag(&mut args, "--model", None);
    assert_eq!(args, strings(&["list"]));
    push_optional_flag(&mut args, "--model", Some("qwen3".to_string()));
    assert_eq!(args, strings(&["list", "--model", "qwen3"]));
}

#[test]
fn provider_simple_subcommands() {
    assert_eq!(
        ProviderCli { subcommand: ProviderSubcommand::Enable }.node_cli_args(),
        strings(&["enable"])
    );
    assert_eq!(
        ProviderCli { subcommand: ProviderSubcommand::Daemon }.node_cli_args(),
        strings(&["daemon"])
    );
}

#[test]
fn provider_price_and_schedule_arguments() {
    let price = ProviderCli {
        subcommand: ProviderSubcommand::Price(ProviderPriceArgs {
            model: "SOLAI-20B".to_string(),
            solai_per_hour: "1.5".to_string(),
        }),
    };
    assert_eq!(price.node_cli_args(), strings(&["price", "SOLAI-20B", "1.5"]));
    let schedule = ProviderCli {
        subcommand: ProviderSubcommand::Schedule(ProviderScheduleArgs {
            from: "09:00".to_string(),
            to: "17:00".to_string(),
        }),
    };
    assert_eq!(
        schedule.node_cli_args(),
        strings(&["schedule", "--from", "09:00", "--to", "17:00"])
    );
}

#[test]
fn provider_list_puts_flags_in_order() {
    let cli = ProviderCli {
        subcommand: ProviderSubcommand::List(ProviderListArgs {
            model: Some("SOLAI-20B".to_string()),
            max_price: Some("2".to_string()),
            available: true,
            json: true,
        }),
    };
    assert_eq!(
        cli.node_cli_args(),
        strings(&["list", "--model", "SOLAI-20B", "--max-price", "2", "--available", "--json"])
    );
}

#[test]
fn provider_run_with_prompt_and_provider() {
    let cli = ProviderCli {
        subcommand: ProviderSubcommand::Run(ProviderRunArgs {
            model: "SOLAI-20B".to_string(),
            prompt: Some("Explain SOLAI in one paragraph".to_string()),
            prompt_file: None,
            lease: None,
            provider: Some("abc".to_string()),
            max_price: None,
        }),
    };
    assert_eq!(
        cli.node_cli_args(),
        strings(&[
            "run",
            "--model",
            "SOLAI-20B",
            "--prompt",
            "Explain SOLAI in one paragraph",
            "--provider",
            "abc"
        ])
    );
}

#[test]
fn marketplace_rent_renders_hours_in_decimal() {
    let cli = SolaiMarketplaceCli {
        subcommand: SolaiMarketplaceSubcommand::Rent(RentArgs {
            model: Some("SOLAI-20B".to_string()),
            choice: None,
            hours: 12,
            provider: None,
            max_price: Some("3".to_string()),
            json: false,
        }),
    };
    assert_eq!(
        cli.node_cli_args(),
        strings(&["rent", "--model", "SOLAI-20B", "--hours", "12", "--max-price", "3"])
    );
}

#[test]
fn marketplace_quote_with_and_without_hours() {
    let with_hours = SolaiMarketplaceCli {
        subcommand: SolaiMarketplaceSubcommand::Quote(QuoteArgs {
            model: Some("m".to_string()),
            choice: None,
            hours: Some(0),
            max_price: None,
            json: true,
        }),
    };
    assert_eq!(
        with_hours.node_cli_args(),
        strings(&["quote", "--model", "m", "--hours", "0", "--json"])
    );
    let without = SolaiMarketplaceCli {
        subcommand: SolaiMarketplaceSubcommand::Quote(QuoteArgs {
            model: Some("m".to_string()),
            choice: None,
            hours: None,
            max_price: None,
            json: false,
        }),
    };
    assert_eq!(without.node_cli_args(), strings(&["quote", "--model", "m"]));
}

#[test]
fn marketplace_run_passes_lease() {
    let cli = SolaiMarketplaceCli {
        subcommand: SolaiMarketplaceSubcommand::Run(RunArgs {
            model: "SOLAI-20B".to_string(),
            prompt: None,
            prompt_file: Some("p.txt".to_string()),
            lease: Some("L1".to_string()),
            provider: None,
            max_price: None,
        }),
    };
    assert_eq!(
        cli.node_cli_args(),
        strings(&["run", "--model", "SOLAI-20B", "--prompt-file", "p.txt", "--lease", "L1"])
    );
}

#[test]
fn shared_list_subcommand_gives_same_arguments() {
    let provider = ProviderCli {
        subcommand: ProviderSubcommand::List(ProviderListArgs {
            model: None,
            max_price: Some("5".to_string()),
            available: false,
            json: true,
        }),
    };
    let marketplace = SolaiMarketplaceCli {
        subcommand: SolaiMarketplaceSubcommand::List(ListArgs {
            model: None,
            max_price: Some("5".to_string()),
            available: false,
            json: true,
        }),
    };
    assert_eq!(provider.node_cli_args(), marketplace.node_cli_args());
}

#[test]
fn documented_provider_lease_commands() {
    let quote = ProviderCli {
        subcommand: ProviderSubcommand::Quote(ProviderQuoteArgs {
            model: None,
            choice: Some(1),
            hours: Some(1),
            max_price: None,
            json: false,
        }),
    };
    assert_eq!(quote.node_cli_args(), strings(&["quote", "--choice", "1", "--hours", "1"]));
    let rent = ProviderCli {
        subcommand: ProviderSubcommand::Rent(ProviderRentArgs {
            model: None,
            choice: Some(1),
            hours: 1,
            provider: None,
            max_price: None,
            json: false,
        }),
    };
    assert_eq!(rent.node_cli_args(), strings(&["rent", "--choice", "1", "--hours", "1"]));
    let leases = ProviderCli {
        subcommand: ProviderSubcommand::Leases(ProviderLeasesArgs { json: false }),
    };
    assert_eq!(leases.node_cli_args(), strings(&["leases"]));
    let lease = ProviderCli {
        subcommand: ProviderSubcommand::Lease(ProviderLeaseArgs {
            lease_id: "L7".to_string(),
            json: false,
        }),
    };
    assert_eq!(lease.node_cli_args(), strings(&["lease", "L7"]));
    let release = ProviderCli {
        subcommand: ProviderSubcommand::Release(ProviderReleaseArgs {
            lease_id: "L7".to_string(),
        }),
    };
    assert_eq!(release.node_cli_args(), strings(&["release", "L7"]));
    let run = ProviderCli {
        subcommand: ProviderSubcommand::Run(ProviderRunArgs {
            model: "SOLAI-20B".to_string(),
            prompt: Some("Explain SOLAI in one paragraph".to_string()),
            prompt_file: None,
            lease: Some("L7".to_string()),
            provider: None,
            max_price: None,
        }),
    };
    assert_eq!(
        run.node_cli_args(),
        strings(&["run", "--model", "SOLAI-20B", "--prompt", "Explain SOLAI in one paragraph", "--lease", "L7"])
    );
}

#[test]
fn documented_marketplace_quote_and_rent_by_choice() {
    let quote = SolaiMarketplaceCli {
        subcommand: SolaiMarketplaceSubcommand::Quote(QuoteArgs {
            model: None,
            choice: Some(1),
            hours: Some(1),
            max_price: None,
            json: false,
        }),
    };
    assert_eq!(quote.node_cli_args(), strings(&["quote", "--choice", "1", "--hours", "1"]));
    let rent = SolaiMarketplaceCli {
        subcommand: SolaiMarketplaceSubcommand::Rent(RentArgs {
            model: None,
            choice: Some(1),
            hours: 1,
            provider: None,
            max_price: None,
            json: false,
        }),
    };
    assert_eq!(rent.node_cli_args(), strings(&["rent", "--choice", "1", "--hours", "1"]));
    let lease = SolaiMarketplaceCli {
        subcommand: SolaiMarketplaceSubcommand::Lease(LeaseArgs {
            lease_id: "L7".to_string(),
            json: true,
        }),
    };
    assert_eq!(lease.node_cli_args(), strings(&["lease", "L7", "--json"]));
}
