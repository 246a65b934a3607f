//! The proxy providers: which ones are listed, their proxies' latencies and
//! qualities, and how much of their subscription is used.
use vstd::prelude::*;
use std::sync::Arc;
use crate::proxies::{arc_clone, last_delay, with_latency, spec_quality, spec_quality_index, LatencyQuality, Proxy, QUALITY_COUNT};

verus! {

/// Traffic of a subscription, in bytes, as far as the provider reports it.
#[derive(Debug, Clone, Copy, PartialEq, Eq, Structural)]
pub struct SubscriptionInfo {
    pub download: Option<u64>,
    pub upload: Option<u64>,
    pub total: Option<u64>,
}

/// A proxy provider, as the API lists it.
#[derive(Debug, Clone)]
pub struct ProxyProvider {
    pub name: String,
    pub vehicle_type: String,
    pub proxies: Vec<Proxy>,
    pub subscription_info: Option<SubscriptionInfo>,
    pub updated_at: Option<String>,
}

/// How much of a subscription is used: the bytes moved and the quota, with
/// a quota above zero; `Unknown` when a figure is missing or the quota is zero
/// (shown as nothing used).
#[derive(Debug, Clone, Copy, PartialEq, Eq, Structural)]
pub enum Usage {
    Unknown,
    Share { used: u128, total: u64 },
}

/// The usage a subscription reports.
pub open spec fn spec_usage(info: SubscriptionInfo) -> Usage {
    match (info.download, info.upload, info.total) {
        (Some(d), Some(u), Some(t)) => if t > 0 {
            Usage::Share { used: (d + u) as u128, total: t }
        } else {
            Usage::Unknown
        },
        _ => Usage::Unknown,
    }
}

/// A listed provider with its proxies' latencies set, the count of its
/// proxies of each quality, and its usage (`None` without subscription).
#[derive(Debug)]
pub struct ProviderView {
    pub provider: Arc<ProxyProvider>,
    pub quality_stats: Vec<usize>,
    pub usage: Option<Usage>,
}

/// Whether a provider is listed: neither the built-in `default` one nor a
/// compatible one.
pub open spec fn provider_listed(p: ProxyProvider) -> bool {
    p.name@ != "default"@ && p.vehicle_type@ != "Compatible"@
}

/// The listed providers, in order.
pub open spec fn listed_providers(ps: Seq<ProxyProvider>) -> Seq<ProxyProvider>
    decreases ps.len(),
{
    if ps.len() == 0 {
        Seq::empty()
    } else if provider_listed(ps.last()) {
        listed_providers(ps.drop_last()).push(ps.last())
    } else {
        listed_providers(ps.drop_last())
    }
}

/// The counts of each quality among proxies whose latency is their last delay.
pub open spec fn delay_quality_counts(ps: Seq<Proxy>, threshold: (u64, u64)) -> Seq<nat>
    decreases ps.len(),
{
    if ps.len() == 0 {
        seq![0nat, 0nat, 0nat, 0nat]
    } else {
        let prev = delay_quality_counts(ps.drop_last(), threshold);
        let k = spec_quality_index(spec_quality(last_delay(ps.last()), threshold)) as int;
        prev.update(k, prev[k] + 1)
    }
}

proof fn lemma_delay_quality_counts(ps: Seq<Proxy>, threshold: (u64, u64))
    ensures
        delay_quality_counts(ps, threshold).len() == QUALITY_COUNT,
        forall|k: int| 0 <= k < QUALITY_COUNT ==> #[trigger] delay_quality_counts(ps, threshold)[k] <= ps.len(),
    decreases ps.len(),
{
    if ps.len() > 0 {
        lemma_delay_quality_counts(ps.drop_last(), threshold);
    }
}

/// `v` is the view of provider `p` with the threshold: each proxy's latency
/// is its last delay, the counts are those of these latencies, the usage is
/// that of the subscription.
pub open spec fn is_provider_view(v: ProviderView, p: ProxyProvider, threshold: (u64, u64)) -> bool {
    let q = v.provider.proxies@;
    &&& v.provider.name == p.name
    &&& v.provider.vehicle_type == p.vehicle_type
    &&& v.provider.subscription_info == p.subscription_info
    &&& v.provider.updated_at == p.updated_at
    &&& q.len() == p.proxies@.len()
    &&& forall|i: int| 0 <= i < q.len() ==> #[trigger] q[i] == with_latency(p.proxies@[i], last_delay(p.proxies@[i]))
    &&& v.quality_stats@.len() == QUALITY_COUNT
    &&& forall|k: int| 0 <= k < QUALITY_COUNT ==> #[trigger] v.quality_stats@[k] == delay_quality_counts(
        p.proxies@,
        threshold,
    )[k]
    &&& v.usage == match p.subscription_info {
        Some(info) => Some(spec_usage(info)),
        None => None,
    }
}

/// The usage a subscription reports.
pub fn usage_of(info: &SubscriptionInfo) -> (r: Usage)
    ensures
        r == spec_usage(*info),
{
    match (info.download, info.upload, info.total) {
        (Some(d), Some(u), Some(t)) => if t > 0 {
            Usage::Share { used: d as u128 + u as u128, total: t }
        } else {
            Usage::Unknown
        },
        _ => Usage::Unknown,
    }
}

/// Whether `j` is the first position of `ps` whose provider is named `name`.
pub open spec fn first_named(ps: Seq<Arc<ProviderView>>, name: Seq<char>, j: int) -> bool {
    &&& 0 <= j < ps.len()
    &&& ps[j].provider.name@ == name
    &&& forall|k: int| 0 <= k < j ==> #[trigger] ps[k].provider.name@ != name
}

/// Whether no provider of `ps` is named `name`.
pub open spec fn none_named(ps: Seq<Arc<ProviderView>>, name: Seq<char>) -> bool {
    forall|k: int| 0 <= k < ps.len() ==> #[trigger] ps[k].provider.name@ != name
}

/// The proxy providers shown.
#[derive(Debug)]
pub struct ProxyProviders {
    pub providers: Vec<Arc<ProviderView>>,
}

impl ProxyProviders {
    /// No providers.
    pub fn new() -> (r: Self)
        ensures
            r.providers@.len() == 0,
    {
        ProxyProviders { providers: Vec::new() }
    }

    /// The view of a provider: every proxy's latency set to its last delay,
    /// the count of proxies of each quality, and the subscription's usage.
    pub fn build_view(&self, provider: ProxyProvider, threshold: (u64, u64)) -> (r: Arc<ProviderView>)
        ensures
            is_provider_view(*r, provider, threshold),
    {
        let ghost input = provider.proxies@;
        let n = provider.proxies.len();
        let usage = match &provider.subscription_info {
            Some(info) => Some(usage_of(info)),
            None => None,
        };
        let ProxyProvider { name, vehicle_type, proxies: mut rest, subscription_info, updated_at } = provider;
        let mut stats: Vec<usize> = vec![0, 0, 0, 0];
        let mut proxies: Vec<Proxy> = Vec::new();
        while rest.len() > 0
            invariant
                input.len() == n,
                rest@.len() <= input.len(),
                rest@ == input.skip(input.len() - rest@.len()),
                proxies@.len() == input.len() - rest@.len(),
                forall|j: int| 0 <= j < proxies@.len() ==> #[trigger] proxies@[j] == with_latency(
                    input[j],
                    last_delay(input[j]),
                ),
                stats@.len() == QUALITY_COUNT,
                forall|k: int| 0 <= k < QUALITY_COUNT ==> #[trigger] stats@[k] == delay_quality_counts(
                    input.take(input.len() - rest@.len()),
                    threshold,
                )[k],
            decreases rest@.len(),
        {
            let ghost done = (input.len() - rest@.len()) as int;
            proof {
                lemma_delay_quality_counts(input.take(done), threshold);
                assert(input.take(done + 1).drop_last() =~= input.take(done));
                assert(input.take(done + 1).last() == input[done]);
                assert(rest@[0] == input[done]);
            }
            let mut p = rest.remove(0);
            proof {
                assert(rest@ =~= input.skip(done + 1));
            }
            let latency = if p.history.len() > 0 {
                Some(p.history[p.history.len() - 1])
            } else {
                None
            };
            let k = LatencyQuality::of(latency, threshold).index();
            let v = stats[k];
            assert(v <= done);
            stats.set(k, v + 1);
            p.latency = latency;
            proxies.push(p);
        }
        assert(input.take(input.len() as int) =~= input);
        let p = ProxyProvider { name, vehicle_type, proxies, subscription_info, updated_at };
        Arc::new(ProviderView { provider: Arc::new(p), quality_stats: stats, usage })
    }

    /// Stores the views of the listed providers, in the order given.
    pub fn push(&mut self, providers: Vec<ProxyProvider>, threshold: (u64, u64))
        ensures
            final(self).providers@.len() == listed_providers(providers@).len(),
            forall|i: int| 0 <= i < final(self).providers@.len() ==> is_provider_view(
                *#[trigger] final(self).providers@[i],
                listed_providers(providers@)[i],
                threshold,
            ),
    {
        let ghost input = providers@;
        let mut out: Vec<Arc<ProviderView>> = Vec::new();
        let mut rest = providers;
        let default_name = "default".to_string();
        let compatible = "Compatible".to_string();
        proof {
            assert(input.take(0) =~= Seq::<ProxyProvider>::empty());
        }
        while rest.len() > 0
            invariant
                default_name@ == "default"@,
                compatible@ == "Compatible"@,
                rest@.len() <= input.len(),
                rest@ == input.skip(input.len() - rest@.len()),
                out@.len() == listed_providers(input.take(input.len() - rest@.len())).len(),
                forall|i: int| 0 <= i < out@.len() ==> is_provider_view(
                    *#[trigger] out@[i],
                    listed_providers(input.take(input.len() - rest@.len()))[i],
                    threshold,
                ),
            decreases rest@.len(),
        {
            let ghost done = (input.len() - rest@.len()) as int;
            proof {
                assert(input.take(done + 1).drop_last() =~= input.take(done));
                assert(input.take(done + 1).last() == input[done]);
                assert(rest@[0] == input[done]);
            }
            let p = rest.remove(0);
            proof {
                assert(rest@ =~= input.skip(done + 1));
            }
            let listed = !(p.name == default_name) && !(p.vehicle_type == compatible);
            if listed {
                let v = self.build_view(p, threshold);
                out.push(v);
            }
        }
        assert(input.take(input.len() as int) =~= input);
        self.providers = out;
    }

    /// The providers shown.
    pub fn view(&self) -> (r: Vec<Arc<ProviderView>>)
        ensures
            r@ == self.providers@,
    {
        let mut r: Vec<Arc<ProviderView>> = Vec::new();
        let mut i: usize = 0;
        while i < self.providers.len()
            invariant
                i <= self.providers@.len(),
                r@ == self.providers@.take(i as int),
            decreases self.providers.len() - i,
        {
            r.push(arc_clone(&self.providers[i]));
            assert(self.providers@.take(i + 1) =~= self.providers@.take(i as int).push(self.providers@[i as int]));
            i = i + 1;
        }
        assert(self.providers@.take(self.providers@.len() as int) =~= self.providers@);
        r
    }

    /// The first shown provider named `name`, with its position.
    pub fn get_by_name(&self, name: &String) -> (r: Option<(usize, Arc<ProviderView>)>)
        ensures
            match r {
                Some((i, v)) => first_named(self.providers@, name@, i as int) && v == self.providers@[i as int],
                None => none_named(self.providers@, name@),
            },
    {
        let mut i: usize = 0;
        while i < self.providers.len()
            invariant
                i <= self.providers@.len(),
                forall|k: int| 0 <= k < i ==> #[trigger] self.providers@[k].provider.name@ != name@,
            decreases self.providers.len() - i,
        {
            if self.providers[i].provider.name == *name {
                return Some((i, arc_clone(&self.providers[i])));
            }
            i = i + 1;
        }
        None
    }

    /// The shown provider at `index`, if there is one.
    pub fn get(&self, index: usize) -> (r: Option<Arc<ProviderView>>)
        ensures
            index < self.providers@.len() ==> r == Some(self.providers@[index as int]),
            index >= self.providers@.len() ==> r is None,
    {
        if index < self.providers.len() {
            Some(arc_clone(&self.providers[index]))
        } else {
            None
        }
    }
}

} // verus!
