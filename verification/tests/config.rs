use atc::config::{Config, PercentageSettings, Settings};
use atc::probability::Probability;
use atc::service::GlobalState;

fn probability(value: f32) -> Probability {
    Probability::from_f32_bits(value.to_bits())
}

#[test]
fn config_default() {
    assert_eq!(
        Config::default(),
        Config {
            settings: Settings {
                rpc_endpoint: "http://127.0.0.1:8899".into(),
                percentages: PercentageSettings {
                    rpc_success: probability(0.65),
                    tx_success: probability(0.8),
                },
                port: 8080,
                workers: 10
            }
        }
    );
}

#[test]
fn default_rates_in_ticks() {
    let percentages = PercentageSettings::default();
    assert_eq!(percentages.rpc_success.ticks(), 10_905_190);
    assert_eq!(percentages.tx_success.ticks(), 13_421_773);
}

#[test]
fn state_from_config_takes_rates_and_endpoint() {
    let config = Config {
        settings: Settings {
            rpc_endpoint: "http://localhost:8899".into(),
            percentages: PercentageSettings {
                rpc_success: probability(1.0),
                tx_success: probability(0.5),
            },
            port: 8080,
            workers: 10,
        },
    };
    let state = GlobalState::from(&config);
    assert_eq!(state.rpc_endpoint, "http://localhost:8899");
    assert_eq!(state.percentages, config.settings.percentages);
    assert_eq!(state.percentages.rpc_success.ticks(), 16_777_216);
    assert_eq!(state.percentages.tx_success.ticks(), 8_388_608);
    assert!(!state.fake_signatures.contains(""));
}

#[test]
fn default_state_is_empty() {
    let state = GlobalState::default();
    assert_eq!(state.rpc_endpoint, "");
    assert_eq!(state.percentages, PercentageSettings::default());
    assert!(!state.fake_signatures.contains("anything"));
}
