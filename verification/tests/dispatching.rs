//! Scenario tests for the fan-out bookkeeping: one outcome per enabled
//! provider, immediate completion with nothing enabled, absence of
//! disabled providers, and isolation of a failing provider.

use translator::baidu::BaiduRes;
use translator::common::{Config, Credential, TransError, TransRes};
use translator::dispatch::{enabled_providers, Dispatcher, Provider, ProviderOutcome};
use translator::huoshan::HuoShanRes;

fn cred() -> Option<Credential> {
    Some(Credential::create("k".to_string(), "s".to_string()))
}

fn ok_outcome(p: Provider) -> ProviderOutcome {
    ProviderOutcome { provider: p, result: Ok(TransRes::create("t".to_string())) }
}

#[test]
fn launch_set_full() {
    let c = Config::create(cred(), cred(), cred(), cred());
    assert_eq!(
        enabled_providers(&c),
        vec![Provider::Baidu, Provider::HuoShan, Provider::AliYun, Provider::Tencent]
    );
}

#[test]
fn launch_set_subsets() {
    let c = Config::create(cred(), None, None, None);
    assert_eq!(enabled_providers(&c), vec![Provider::Baidu]);
    let c = Config::create(None, None, cred(), cred());
    assert_eq!(enabled_providers(&c), vec![Provider::HuoShan, Provider::Tencent]);
    let c = Config::create(None, cred(), None, None);
    assert_eq!(enabled_providers(&c), vec![Provider::AliYun]);
    let c = Config::create(None, None, None, None);
    assert_eq!(enabled_providers(&c), Vec::<Provider>::new());
}

#[test]
fn complete_run_has_one_outcome_per_enabled_provider() {
    let c = Config::create(cred(), cred(), None, cred());
    let mut d = Dispatcher::new(&c);
    assert!(!d.is_complete());
    // Delivery happens in completion order, not launch order.
    d.deliver(ok_outcome(Provider::Tencent)).unwrap();
    d.deliver(ok_outcome(Provider::Baidu)).unwrap();
    assert!(!d.is_complete());
    d.deliver(ok_outcome(Provider::AliYun)).unwrap();
    assert!(d.is_complete());
    let providers: Vec<Provider> = d.outcomes().iter().map(|o| o.provider).collect();
    assert_eq!(providers, vec![Provider::Tencent, Provider::Baidu, Provider::AliYun]);
}

#[test]
fn duplicate_delivery_is_refused() {
    let c = Config::create(cred(), None, None, None);
    let mut d = Dispatcher::new(&c);
    d.deliver(ok_outcome(Provider::Baidu)).unwrap();
    let err = d.deliver(ok_outcome(Provider::Baidu)).unwrap_err();
    assert_eq!(err, TransError::ChannelError);
    assert_eq!(d.outcomes().len(), 1);
}

#[test]
fn unlaunched_delivery_is_refused() {
    let c = Config::create(cred(), None, None, None);
    let mut d = Dispatcher::new(&c);
    let err = d.deliver(ok_outcome(Provider::Tencent)).unwrap_err();
    assert_eq!(err, TransError::ChannelError);
    assert_eq!(d.outcomes().len(), 0);
    assert!(!d.is_complete());
}

#[test]
fn empty_launch_set_completes_immediately() {
    let c = Config::create(None, None, None, None);
    let d = Dispatcher::new(&c);
    assert!(d.is_complete());
    assert_eq!(d.outcomes().len(), 0);
}

#[test]
fn disabled_provider_is_absent_from_outcomes() {
    let c = Config::create(cred(), None, cred(), None);
    let mut d = Dispatcher::new(&c);
    assert!(!enabled_providers(&c).contains(&Provider::Tencent));
    d.deliver(ok_outcome(Provider::HuoShan)).unwrap();
    d.deliver(ok_outcome(Provider::Baidu)).unwrap();
    assert!(d.is_complete());
    assert!(d.outcomes().iter().all(|o| o.provider != Provider::Tencent));
    assert!(d.outcomes().iter().all(|o| o.provider != Provider::AliYun));
}

#[test]
fn missing_translation_entry_is_a_response_error() {
    let empty = BaiduRes { data: vec![] };
    assert_eq!(empty.to_trans_res().unwrap_err(), TransError::ResponseError);
    let empty = HuoShanRes { data: vec![] };
    assert_eq!(empty.to_trans_res().unwrap_err(), TransError::ResponseError);
}

#[test]
fn failing_provider_does_not_disturb_sibling() {
    let c = Config::create(cred(), None, cred(), None);
    let mut d = Dispatcher::new(&c);
    let failing = ProviderOutcome {
        provider: Provider::Baidu,
        result: Err(TransError::ResponseError),
    };
    d.deliver(failing).unwrap();
    d.deliver(ok_outcome(Provider::HuoShan)).unwrap();
    assert!(d.is_complete());
    let outcomes = d.outcomes();
    assert_eq!(outcomes.len(), 2);
    assert_eq!(outcomes[0].provider, Provider::Baidu);
    assert_eq!(outcomes[0].result.as_ref().unwrap_err(), &TransError::ResponseError);
    assert_eq!(outcomes[1].provider, Provider::HuoShan);
    assert_eq!(outcomes[1].result.as_ref().unwrap().result(), "t");
}

#[test]
fn provider_labels() {
    assert_eq!(Provider::Baidu.label(), " BaiDu ");
    assert_eq!(Provider::HuoShan.label(), "HuoShan");
    assert_eq!(Provider::AliYun.label(), " AliYun");
    assert_eq!(Provider::Tencent.label(), "Tencent");
}
