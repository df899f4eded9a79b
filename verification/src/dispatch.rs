//! Fan-out bookkeeping: which providers are launched for a credential
//! table, and the guarantee that a complete run delivers exactly one
//! outcome per enabled provider, in delivery order, and none for a
//! disabled provider.

use vstd::prelude::*;

use vstd::multiset::Multiset;

use crate::common::{Config, TransError, TransRes, TransResult};

verus! {

broadcast use vstd::seq_lib::group_to_multiset_ensures, vstd::multiset::group_multiset_axioms;

/// The four translation providers.
#[derive(Debug, Clone, Copy, PartialEq, Eq, Structural)]
pub enum Provider {
    Baidu,
    HuoShan,
    AliYun,
    Tencent,
}

impl Provider {
    /// The fixed-width human-readable label under which the provider's
    /// outcome is reported.
    pub fn label(&self) -> (r: &str)
        ensures
            *self is Baidu ==> r@ == " BaiDu "@,
            *self is HuoShan ==> r@ == "HuoShan"@,
            *self is AliYun ==> r@ == " AliYun"@,
            *self is Tencent ==> r@ == "Tencent"@,
    {
        match self {
            Provider::Baidu => " BaiDu ",
            Provider::HuoShan => "HuoShan",
            Provider::AliYun => " AliYun",
            Provider::Tencent => "Tencent",
        }
    }
}

/// Whether the credential table enables the provider.
pub open spec fn provider_enabled(c: Config, p: Provider) -> bool {
    match p {
        Provider::Baidu => c.baidu is Some,
        Provider::HuoShan => c.huoshan is Some,
        Provider::AliYun => c.aliyun is Some,
        Provider::Tencent => c.tencent is Some,
    }
}

/// The launch set for a credential table, in launch order.
pub open spec fn enabled_seq(c: Config) -> Seq<Provider> {
    (if c.baidu is Some {
        seq![Provider::Baidu]
    } else {
        Seq::empty()
    }) + (if c.huoshan is Some {
        seq![Provider::HuoShan]
    } else {
        Seq::empty()
    }) + (if c.aliyun is Some {
        seq![Provider::AliYun]
    } else {
        Seq::empty()
    }) + (if c.tencent is Some {
        seq![Provider::Tencent]
    } else {
        Seq::empty()
    })
}

/// A provider appears in the launch set exactly when it is enabled, and
/// then exactly once.
pub proof fn lemma_enabled_seq_count(c: Config, p: Provider)
    ensures
        enabled_seq(c).to_multiset().count(p) == if provider_enabled(c, p) {
            1nat
        } else {
            0nat
        },
{
    let b = if c.baidu is Some { seq![Provider::Baidu] } else { Seq::<Provider>::empty() };
    let h = if c.huoshan is Some { seq![Provider::HuoShan] } else { Seq::<Provider>::empty() };
    let a = if c.aliyun is Some { seq![Provider::AliYun] } else { Seq::<Provider>::empty() };
    let t = if c.tencent is Some { seq![Provider::Tencent] } else { Seq::<Provider>::empty() };
    vstd::seq_lib::lemma_multiset_commutative(b + h + a, t);
    vstd::seq_lib::lemma_multiset_commutative(b + h, a);
    vstd::seq_lib::lemma_multiset_commutative(b, h);
    assert(Seq::<Provider>::empty().to_multiset() =~= Multiset::<Provider>::empty());
    lemma_singleton_count(Provider::Baidu, p);
    lemma_singleton_count(Provider::HuoShan, p);
    lemma_singleton_count(Provider::AliYun, p);
    lemma_singleton_count(Provider::Tencent, p);
}

proof fn lemma_singleton_count(x: Provider, p: Provider)
    ensures
        seq![x].to_multiset().count(p) == if p == x {
            1nat
        } else {
            0nat
        },
{
    assert(seq![x] =~= Seq::<Provider>::empty().push(x));
    assert(Seq::<Provider>::empty().to_multiset() =~= Multiset::<Provider>::empty());
    assert(seq![x].to_multiset() =~= Multiset::<Provider>::empty().insert(x));
}

/// The providers with a present credential, in launch order.
pub fn enabled_providers(config: &Config) -> (r: Vec<Provider>)
    ensures
        r@ == enabled_seq(*config),
{
    let mut v: Vec<Provider> = Vec::new();
    if config.baidu.is_some() {
        v.push(Provider::Baidu);
    }
    if config.huoshan.is_some() {
        v.push(Provider::HuoShan);
    }
    if config.aliyun.is_some() {
        v.push(Provider::AliYun);
    }
    if config.tencent.is_some() {
        v.push(Provider::Tencent);
    }
    assert(v@ =~= enabled_seq(*config));
    v
}

/// The unit delivered to the consumer: one provider's success or failure.
pub struct ProviderOutcome {
    pub provider: Provider,
    pub result: TransResult<TransRes>,
}

/// The providers of a sequence of outcomes, in the same order.
pub open spec fn outcome_providers(s: Seq<ProviderOutcome>) -> Seq<Provider> {
    s.map_values(|o: ProviderOutcome| o.provider)
}

/// Tracks one fan-out run: the launch set, the providers whose outcome is
/// still pending, and the outcomes delivered so far, in delivery order.
pub struct Dispatcher {
    pub launched: Vec<Provider>,
    pub pending: Vec<Provider>,
    pub delivered: Vec<ProviderOutcome>,
}

impl Dispatcher {
    /// Every launched provider is accounted for exactly once, either as
    /// still pending or by a delivered outcome.
    pub open spec fn wf(self) -> bool {
        self.pending@.to_multiset().add(outcome_providers(self.delivered@).to_multiset())
            == self.launched@.to_multiset()
    }

    /// Starts a run: the launch set is exactly the enabled providers, all
    /// pending, nothing delivered.
    pub fn new(config: &Config) -> (d: Dispatcher)
        ensures
            d.launched@ == enabled_seq(*config),
            d.pending@ == enabled_seq(*config),
            d.delivered@ == Seq::<ProviderOutcome>::empty(),
            d.wf(),
    {
        let launched = enabled_providers(config);
        let pending = enabled_providers(config);
        let d = Dispatcher { launched, pending, delivered: Vec::new() };
        proof {
            assert(outcome_providers(d.delivered@) =~= Seq::<Provider>::empty());
            assert(Seq::<Provider>::empty().to_multiset() =~= Multiset::<Provider>::empty());
            assert(d.pending@.to_multiset().add(Multiset::<Provider>::empty())
                =~= d.pending@.to_multiset());
        }
        d
    }

    /// Accepts one provider's outcome: a pending provider moves to the
    /// delivered sequence, which grows only at its end, and every other
    /// outcome is left untouched; an outcome for a provider that is not
    /// pending is refused as an internal delivery error and changes
    /// nothing.
    pub fn deliver(&mut self, outcome: ProviderOutcome) -> (r: TransResult<()>)
        requires
            old(self).wf(),
        ensures
            final(self).wf(),
            final(self).launched == old(self).launched,
            old(self).pending@.contains(outcome.provider) ==> ({
                &&& r is Ok
                &&& final(self).delivered@ == old(self).delivered@.push(outcome)
                &&& final(self).pending@.to_multiset() == old(self).pending@.to_multiset().remove(
                    outcome.provider,
                )
                &&& final(self).pending@.len() == old(self).pending@.len() - 1
            }),
            !old(self).pending@.contains(outcome.provider) ==> ({
                &&& r matches Err(e) && e == TransError::ChannelError
                &&& *final(self) == *old(self)
            }),
    {
        let n = self.pending.len();
        let mut i: usize = 0;
        while i < n
            invariant
                i <= n,
                *self == *old(self),
                old(self).wf(),
                n == self.pending@.len(),
                forall|j: int| 0 <= j < i ==> self.pending@[j] != outcome.provider,
            decreases n - i,
        {
            if provider_eq(self.pending[i], outcome.provider) {
                let ghost pre_pending = self.pending@;
                let ghost pre_delivered = self.delivered@;
                proof {
                    assert(pre_pending[i as int] == outcome.provider);
                }
                self.pending.remove(i);
                self.delivered.push(outcome);
                proof {
                    assert(pre_pending.contains(outcome.provider));
                    assert(self.pending@ =~= pre_pending.remove(i as int));
                    assert(self.pending@.to_multiset() =~= pre_pending.to_multiset().remove(
                        outcome.provider,
                    ));
                    lemma_outcome_providers_push(pre_delivered, outcome);
                    assert(outcome_providers(self.delivered@).to_multiset()
                        =~= outcome_providers(pre_delivered).to_multiset().insert(
                        outcome.provider,
                    ));
                    assert(pre_pending.to_multiset().count(outcome.provider) > 0);
                    lemma_move_one(
                        pre_pending.to_multiset(),
                        outcome_providers(pre_delivered).to_multiset(),
                        outcome.provider,
                    );
                    assert(self.pending@.to_multiset().add(
                        outcome_providers(self.delivered@).to_multiset(),
                    ) =~= self.launched@.to_multiset());
                }
                return Ok(());
            }
            i += 1;
        }
        assert(!self.pending@.contains(outcome.provider));
        Err(TransError::ChannelError)
    }

    /// Whether every launched provider has delivered its outcome.
    pub fn is_complete(&self) -> (r: bool)
        ensures
            r == (self.pending@.len() == 0),
    {
        self.pending.len() == 0
    }

    /// The outcomes delivered so far, in delivery order.
    pub fn outcomes(&self) -> (r: &Vec<ProviderOutcome>)
        ensures
            r@ == self.delivered@,
    {
        &self.delivered
    }
}

fn provider_eq(a: Provider, b: Provider) -> (r: bool)
    ensures
        r == (a == b),
{
    match (a, b) {
        (Provider::Baidu, Provider::Baidu) => true,
        (Provider::HuoShan, Provider::HuoShan) => true,
        (Provider::AliYun, Provider::AliYun) => true,
        (Provider::Tencent, Provider::Tencent) => true,
        _ => false,
    }
}

/// Moving one occurrence of `p` from the left multiset to the right one
/// leaves their sum unchanged.
proof fn lemma_move_one(a: Multiset<Provider>, b: Multiset<Provider>, p: Provider)
    requires
        a.count(p) > 0,
    ensures
        a.remove(p).add(b.insert(p)) == a.add(b),
{
    assert forall|q: Provider| a.remove(p).add(b.insert(p)).count(q) == a.add(b).count(q) by {
        assert(Multiset::singleton(p).count(q) == if q == p {
            1nat
        } else {
            0nat
        });
    }
    assert(a.remove(p).add(b.insert(p)) =~= a.add(b));
}

proof fn lemma_outcome_providers_push(s: Seq<ProviderOutcome>, o: ProviderOutcome)
    ensures
        outcome_providers(s.push(o)) == outcome_providers(s).push(o.provider),
{
    assert(outcome_providers(s.push(o)) =~= outcome_providers(s).push(o.provider));
}

/// A complete run has delivered exactly one outcome per enabled provider:
/// as many outcomes as enabled providers, each enabled provider exactly
/// once, and no outcome for any other provider.
pub proof fn law_complete_run_covers_enabled(d: Dispatcher, c: Config)
    requires
        d.wf(),
        d.launched@ == enabled_seq(c),
        d.pending@.len() == 0,
    ensures
        outcome_providers(d.delivered@).to_multiset() == enabled_seq(c).to_multiset(),
        d.delivered@.len() == enabled_seq(c).len(),
        forall|p: Provider|
            outcome_providers(d.delivered@).to_multiset().count(p) == (if provider_enabled(c, p) {
                1nat
            } else {
                0nat
            }),
{
    assert(d.pending@ =~= Seq::<Provider>::empty());
    assert(d.pending@.to_multiset() =~= Multiset::<Provider>::empty());
    assert(Multiset::<Provider>::empty().add(outcome_providers(d.delivered@).to_multiset())
        =~= outcome_providers(d.delivered@).to_multiset());
    assert(outcome_providers(d.delivered@).len() == d.delivered@.len());
    assert(outcome_providers(d.delivered@).to_multiset().len() == outcome_providers(
        d.delivered@,
    ).len());
    assert(enabled_seq(c).to_multiset().len() == enabled_seq(c).len());
    assert forall|p: Provider|
        outcome_providers(d.delivered@).to_multiset().count(p) == (if provider_enabled(c, p) {
            1nat
        } else {
            0nat
        }) by {
        lemma_enabled_seq_count(c, p);
    }
}

/// With no provider enabled, a fresh run is already complete and has
/// delivered nothing.
pub proof fn law_empty_launch_is_immediate(d: Dispatcher, c: Config)
    requires
        d.launched@ == enabled_seq(c),
        d.pending@ == d.launched@,
        d.delivered@ == Seq::<ProviderOutcome>::empty(),
        c.baidu is None,
        c.huoshan is None,
        c.aliyun is None,
        c.tencent is None,
    ensures
        d.pending@.len() == 0,
        d.delivered@.len() == 0,
{
    assert(enabled_seq(c) =~= Seq::<Provider>::empty());
}

/// One provider's outcome, success or failure, never alters another's: a
/// delivery appends to the outcome sequence and leaves every earlier
/// outcome unchanged.
pub proof fn law_outcome_isolation(pre: Dispatcher, post: Dispatcher, o: ProviderOutcome)
    requires
        post.delivered@ == pre.delivered@.push(o),
    ensures
        post.delivered@.len() == pre.delivered@.len() + 1,
        post.delivered@[pre.delivered@.len() as int] == o,
        forall|i: int| 0 <= i < pre.delivered@.len() ==> post.delivered@[i] == pre.delivered@[i],
{
}

/// A provider without a credential is never launched, never pending, and
/// absent from the delivered outcomes.
pub proof fn law_disabled_provider_absent(d: Dispatcher, c: Config, p: Provider)
    requires
        d.wf(),
        d.launched@ == enabled_seq(c),
        !provider_enabled(c, p),
    ensures
        !d.launched@.contains(p),
        !d.pending@.contains(p),
        forall|i: int| 0 <= i < d.delivered@.len() ==> d.delivered@[i].provider != p,
{
    lemma_enabled_seq_count(c, p);
    assert(d.launched@.to_multiset().count(p) == 0);
    assert(d.pending@.to_multiset().count(p) + outcome_providers(
        d.delivered@,
    ).to_multiset().count(p) == 0) by {
        broadcast use vstd::multiset::group_multiset_axioms;

    }
    assert forall|i: int| 0 <= i < d.delivered@.len() implies d.delivered@[i].provider != p by {
        if d.delivered@[i].provider == p {
            assert(outcome_providers(d.delivered@)[i] == p);
            assert(outcome_providers(d.delivered@).contains(p));
        }
    }
}

} // verus!
