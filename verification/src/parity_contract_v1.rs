//! Shared fan-engagement feature-parity contract with `fanwaave/fanwaave-flutter`.
//! Native notification, lifecycle, share, and secure-storage behavior belongs
//! only in [`AppPlatformAdapter`].
use vstd::prelude::*;

verus! {

/// Version of the cross-platform parity contract.
pub const CROSS_PLATFORM_PARITY_CONTRACT_VERSION: u32 = 1;

/// The Flutter application that this contract is shared with.
pub const FLUTTER_COUNTERPART: &'static str = "fanwaave/fanwaave-flutter";

/// The application surfaces that take part in the contract.
#[derive(Clone, Copy, Debug, PartialEq, Eq, Hash, Structural)]
pub enum AppSurface {
    Mobile,
    FlutterDesktop,
    RustDesktop,
}

/// The fan-engagement capabilities that every surface must offer.
#[derive(Clone, Copy, Debug, PartialEq, Eq, Hash, Structural)]
pub enum AppCapability {
    Authentication,
    CreatorDiscovery,
    EventFeed,
    Subscriptions,
    Engagement,
    PushNotifications,
    DesktopNotifications,
    DeepLinks,
    ShareIntent,
    SecureStorage,
    OfflineCache,
    BackgroundSync,
    Telemetry,
    Accessibility,
    ApplicationUpdates,
}

/// Every capability of the contract, in the order in which it is checked.
pub const REQUIRED_PARITY_CAPABILITIES: [AppCapability; 15] = [
    AppCapability::Authentication,
    AppCapability::CreatorDiscovery,
    AppCapability::EventFeed,
    AppCapability::Subscriptions,
    AppCapability::Engagement,
    AppCapability::PushNotifications,
    AppCapability::DesktopNotifications,
    AppCapability::DeepLinks,
    AppCapability::ShareIntent,
    AppCapability::SecureStorage,
    AppCapability::OfflineCache,
    AppCapability::BackgroundSync,
    AppCapability::Telemetry,
    AppCapability::Accessibility,
    AppCapability::ApplicationUpdates,
];

/// The required capabilities, in order, as a sequence.
pub open spec fn required_capabilities() -> Seq<AppCapability> {
    seq![
        AppCapability::Authentication,
        AppCapability::CreatorDiscovery,
        AppCapability::EventFeed,
        AppCapability::Subscriptions,
        AppCapability::Engagement,
        AppCapability::PushNotifications,
        AppCapability::DesktopNotifications,
        AppCapability::DeepLinks,
        AppCapability::ShareIntent,
        AppCapability::SecureStorage,
        AppCapability::OfflineCache,
        AppCapability::BackgroundSync,
        AppCapability::Telemetry,
        AppCapability::Accessibility,
        AppCapability::ApplicationUpdates,
    ]
}

/// The position of a capability in the required order.
pub open spec fn capability_rank(c: AppCapability) -> nat {
    match c {
        AppCapability::Authentication => 0,
        AppCapability::CreatorDiscovery => 1,
        AppCapability::EventFeed => 2,
        AppCapability::Subscriptions => 3,
        AppCapability::Engagement => 4,
        AppCapability::PushNotifications => 5,
        AppCapability::DesktopNotifications => 6,
        AppCapability::DeepLinks => 7,
        AppCapability::ShareIntent => 8,
        AppCapability::SecureStorage => 9,
        AppCapability::OfflineCache => 10,
        AppCapability::BackgroundSync => 11,
        AppCapability::Telemetry => 12,
        AppCapability::Accessibility => 13,
        AppCapability::ApplicationUpdates => 14,
    }
}

/// The first `n` required capabilities that `answers` reports as unsupported,
/// in the required order; `answers[i]` is the adapter's answer for the `i`-th one.
pub open spec fn missing_among(answers: Seq<bool>, n: nat) -> Seq<AppCapability>
    decreases n,
{
    if n == 0 {
        seq![]
    } else {
        let rest = missing_among(answers, (n - 1) as nat);
        if answers[n - 1] {
            rest
        } else {
            rest.push(required_capabilities()[n - 1])
        }
    }
}

/// All required capabilities that `answers` reports as unsupported.
pub open spec fn missing_capabilities(answers: Seq<bool>) -> Seq<AppCapability> {
    missing_among(answers, 15)
}

/// `r` is the verdict of the parity check for the answers `answers`:
/// success when nothing is missing, else the missing capabilities in order.
pub open spec fn is_parity_verdict(r: Result<(), Vec<AppCapability>>, answers: Seq<bool>) -> bool {
    match r {
        Ok(()) => missing_capabilities(answers).len() == 0,
        Err(missing) => missing@ == missing_capabilities(answers) && missing@.len() > 0,
    }
}

/// A platform adapter of one application surface: the one place where native
/// notification, lifecycle, share and secure-storage behaviour lives.
pub trait AppPlatformAdapter {
    /// The surface this adapter runs on.
    fn surface(&self) -> AppSurface;

    /// Whether this adapter offers `capability`, as a property of the adapter.
    spec fn spec_supports(&self, capability: AppCapability) -> bool;

    /// Whether this adapter offers `capability`.
    fn supports(&self, capability: AppCapability) -> (r: bool)
        ensures
            r == self.spec_supports(capability),
    ;
}

/// The adapter's answers for the required capabilities, in the required order.
pub open spec fn adapter_answers<A: AppPlatformAdapter>(adapter: &A) -> Seq<bool> {
    Seq::new(15, |k: int| adapter.spec_supports(required_capabilities()[k]))
}

/// Decides the parity check from the adapter's answers, where `answers[i]`
/// says whether the `i`-th required capability is supported.
pub fn parity_verdict(answers: &Vec<bool>) -> (r: Result<(), Vec<AppCapability>>)
    requires
        answers@.len() == 15,
    ensures
        is_parity_verdict(r, answers@),
{
    let mut missing: Vec<AppCapability> = Vec::new();
    let mut i: usize = 0;
    while i < 15
        invariant
            i <= 15,
            answers@.len() == 15,
            missing@ == missing_among(answers@, i as nat),
        decreases 15 - i,
    {
        if !answers[i] {
            missing.push(REQUIRED_PARITY_CAPABILITIES[i]);
        }
        i = i + 1;
    }
    if missing.len() == 0 {
        Ok(())
    } else {
        Err(missing)
    }
}

/// Asks `adapter` about every required capability, in the required order, and
/// reports the ones it does not support.
pub fn verify_required_parity_capabilities(adapter: &impl AppPlatformAdapter) -> (r: Result<(), Vec<AppCapability>>)
    ensures
        is_parity_verdict(r, adapter_answers(adapter)),
{
    let mut answers: Vec<bool> = Vec::new();
    let mut i: usize = 0;
    while i < 15
        invariant
            i <= 15,
            answers@.len() == i,
            forall|k: int| 0 <= k < i ==> answers@[k] == adapter.spec_supports(required_capabilities()[k]),
        decreases 15 - i,
    {
        answers.push(adapter.supports(REQUIRED_PARITY_CAPABILITIES[i]));
        i = i + 1;
    }
    assert(answers@ =~= adapter_answers(adapter));
    parity_verdict(&answers)
}

/// Each required capability stands at the position given by its rank.
proof fn lemma_required_ranks()
    ensures
        required_capabilities().len() == 15,
        forall|i: int| 0 <= i < 15 ==> #[trigger] capability_rank(required_capabilities()[i]) == i,
        forall|c: AppCapability| #[trigger] required_capabilities()[capability_rank(c) as int] == c,
{
    let r = required_capabilities();
    assert(r[0] == AppCapability::Authentication);
    assert(r[1] == AppCapability::CreatorDiscovery);
    assert(r[2] == AppCapability::EventFeed);
    assert(r[3] == AppCapability::Subscriptions);
    assert(r[4] == AppCapability::Engagement);
    assert(r[5] == AppCapability::PushNotifications);
    assert(r[6] == AppCapability::DesktopNotifications);
    assert(r[7] == AppCapability::DeepLinks);
    assert(r[8] == AppCapability::ShareIntent);
    assert(r[9] == AppCapability::SecureStorage);
    assert(r[10] == AppCapability::OfflineCache);
    assert(r[11] == AppCapability::BackgroundSync);
    assert(r[12] == AppCapability::Telemetry);
    assert(r[13] == AppCapability::Accessibility);
    assert(r[14] == AppCapability::ApplicationUpdates);
}

/// What the first `n` answers make missing: exactly the capabilities of rank
/// below `n` that are answered unsupported, in strictly increasing rank.
proof fn lemma_missing_among(answers: Seq<bool>, n: nat)
    requires
        answers.len() == 15,
        n <= 15,
    ensures
        forall|k: int| 0 <= k < missing_among(answers, n).len()
            ==> #[trigger] capability_rank(missing_among(answers, n)[k]) < n,
        forall|k1: int, k2: int| 0 <= k1 < k2 < missing_among(answers, n).len()
            ==> capability_rank(#[trigger] missing_among(answers, n)[k1])
                < capability_rank(#[trigger] missing_among(answers, n)[k2]),
        forall|c: AppCapability| #[trigger] missing_among(answers, n).contains(c)
            <==> (capability_rank(c) < n && !answers[capability_rank(c) as int]),
        missing_among(answers, n).len() == 0 <==> (forall|i: int| 0 <= i < n ==> answers[i]),
    decreases n,
{
    lemma_required_ranks();
    if n > 0 {
        let m = (n - 1) as nat;
        lemma_missing_among(answers, m);
        let rest = missing_among(answers, m);
        if !answers[m as int] {
            let cur = rest.push(required_capabilities()[m as int]);
            assert forall|c: AppCapability| cur.contains(c)
                <==> (capability_rank(c) < n && !answers[capability_rank(c) as int]) by {
                if cur.contains(c) {
                    let k = choose|k: int| 0 <= k < cur.len() && cur[k] == c;
                    if k < rest.len() {
                        assert(rest.contains(c));
                    }
                }
                if capability_rank(c) < n && !answers[capability_rank(c) as int] {
                    if capability_rank(c) < m {
                        assert(rest.contains(c));
                        let k = choose|k: int| 0 <= k < rest.len() && rest[k] == c;
                        assert(cur[k] == c);
                    } else {
                        assert(cur[rest.len() as int] == c);
                    }
                }
            }
        } else {
            assert forall|c: AppCapability| rest.contains(c)
                <==> (capability_rank(c) < n && !answers[capability_rank(c) as int]) by {
                if capability_rank(c) == m {
                    assert(answers[capability_rank(c) as int]);
                }
            }
        }
    }
}

/// The parity law: the check succeeds exactly when every required capability is
/// supported; otherwise it names each unsupported required capability, once, in
/// the required order, and nothing else.
pub proof fn lemma_parity_verdict_exact(answers: Seq<bool>)
    requires
        answers.len() == 15,
    ensures
        missing_capabilities(answers).len() == 0 <==> (forall|i: int| 0 <= i < 15 ==> answers[i]),
        missing_capabilities(answers).no_duplicates(),
        forall|k1: int, k2: int| 0 <= k1 < k2 < missing_capabilities(answers).len()
            ==> capability_rank(#[trigger] missing_capabilities(answers)[k1])
                < capability_rank(#[trigger] missing_capabilities(answers)[k2]),
        forall|c: AppCapability| #[trigger] missing_capabilities(answers).contains(c)
            <==> !answers[capability_rank(c) as int],
{
    lemma_missing_among(answers, 15);
    let m = missing_capabilities(answers);
    assert forall|c: AppCapability| #[trigger] m.contains(c) <==> !answers[capability_rank(c) as int] by {
        assert(capability_rank(c) < 15);
    }
    assert forall|k1: int, k2: int| 0 <= k1 < m.len() && 0 <= k2 < m.len() && k1 != k2
        implies m[k1] != m[k2] by {
        if k1 < k2 {
            assert(capability_rank(m[k1]) < capability_rank(m[k2]));
        } else {
            assert(capability_rank(m[k2]) < capability_rank(m[k1]));
        }
    }
}

/// An adapter's parity: the check succeeds exactly when the adapter supports
/// every capability, and otherwise names exactly the capabilities it does not
/// support, each once, in the required order.
pub proof fn lemma_adapter_parity<A: AppPlatformAdapter>(adapter: &A)
    ensures
        missing_capabilities(adapter_answers(adapter)).len() == 0
            <==> (forall|c: AppCapability| #[trigger] adapter.spec_supports(c)),
        missing_capabilities(adapter_answers(adapter)).no_duplicates(),
        forall|c: AppCapability| #[trigger] missing_capabilities(adapter_answers(adapter)).contains(c)
            <==> !adapter.spec_supports(c),
{
    lemma_required_ranks();
    let answers = adapter_answers(adapter);
    lemma_parity_verdict_exact(answers);
    assert forall|c: AppCapability| answers[capability_rank(c) as int] == adapter.spec_supports(c) by {
        assert(required_capabilities()[capability_rank(c) as int] == c);
    }
    if forall|i: int| 0 <= i < 15 ==> answers[i] {
        assert forall|c: AppCapability| #[trigger] adapter.spec_supports(c) by {
            assert(answers[capability_rank(c) as int]);
        }
    }
    if forall|c: AppCapability| #[trigger] adapter.spec_supports(c) {
        assert forall|i: int| 0 <= i < 15 implies answers[i] by {
            assert(adapter.spec_supports(required_capabilities()[i]));
        }
    }
}

/// Parity is monotone: an adapter that supports at least what another supports
/// misses only capabilities that the other misses too (both lists keep the
/// required order); so if the weaker adapter passes, the stronger one passes.
pub proof fn lemma_parity_monotone<A: AppPlatformAdapter, B: AppPlatformAdapter>(a: &A, b: &B)
    requires
        forall|c: AppCapability| #[trigger] b.spec_supports(c) ==> a.spec_supports(c),
    ensures
        forall|c: AppCapability| #[trigger] missing_capabilities(adapter_answers(a)).contains(c)
            ==> missing_capabilities(adapter_answers(b)).contains(c),
        missing_capabilities(adapter_answers(b)).len() == 0 ==> missing_capabilities(adapter_answers(a)).len() == 0,
{
    lemma_adapter_parity(a);
    lemma_adapter_parity(b);
    if missing_capabilities(adapter_answers(b)).len() == 0 {
        assert forall|c: AppCapability| #[trigger] a.spec_supports(c) by {
            assert(!missing_capabilities(adapter_answers(b)).contains(c));
        }
    }
}

} // verus!
