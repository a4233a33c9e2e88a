//! Ownership of native handles: which device must be current before a
//! handle is destroyed, and when a shared engine is released.
use vstd::prelude::*;
use crate::error::Failure;

verus! {

/// Index of an accelerator device.
pub type DeviceId = i32;

/// A kind of native object that a wrapper owns.
#[derive(Copy, Clone, Debug, PartialEq, Eq, Structural)]
pub enum NativeObject {
    Builder,
    BuilderConfig,
    NetworkDefinition,
    Runtime,
    Engine,
    /// The execution context created at this position of a request.
    ExecutionContext { index: usize },
}

/// One step of releasing native objects.
#[derive(Copy, Clone, Debug, PartialEq, Eq, Structural)]
pub enum Teardown {
    /// Make this device current on the calling thread; failing here is fatal.
    MakeCurrent { device: DeviceId },
    /// Destroy the native object, exactly once.
    Destroy { object: NativeObject },
}

/// Releasing an exclusively owned object: its device first, then the object.
pub open spec fn release_of(device: DeviceId, object: NativeObject) -> Seq<Teardown> {
    seq![Teardown::MakeCurrent { device }, Teardown::Destroy { object }]
}

/// Releasing an engine: the engine, then the runtime that deserialized it,
/// each after making their common device current.
pub open spec fn engine_release(device: DeviceId) -> Seq<Teardown> {
    release_of(device, NativeObject::Engine) + release_of(device, NativeObject::Runtime)
}

/// The steps that release an exclusively owned object created on `device`.
pub fn release_steps(device: DeviceId, object: NativeObject) -> (r: Vec<Teardown>)
    ensures
        r@ == release_of(device, object),
{
    let mut steps: Vec<Teardown> = Vec::new();
    steps.push(Teardown::MakeCurrent { device });
    steps.push(Teardown::Destroy { object });
    assert(steps@ =~= release_of(device, object));
    steps
}

/// Shared ownership of one engine: the caller's handle and every execution
/// context created from it each hold a share, and the native engine is
/// destroyed when the last share goes.
pub struct EngineShare {
    device: DeviceId,
    holders: u64,
}

impl EngineShare {
    /// Device the engine was created on.
    pub closed spec fn device(&self) -> DeviceId {
        self.device
    }

    /// Number of live shares; zero once the native engine is destroyed.
    pub closed spec fn holders(&self) -> nat {
        self.holders as nat
    }

    /// Ownership of a freshly created engine, held by its creator alone.
    pub fn new(device: DeviceId) -> (r: EngineShare)
        ensures
            r.device() == device,
            r.holders() == 1,
    {
        EngineShare { device, holders: 1 }
    }

    /// Whether the native engine has been destroyed.
    pub fn is_destroyed(&self) -> (r: bool)
        ensures
            r == (self.holders() == 0),
    {
        self.holders == 0
    }

    /// Number of live shares.
    pub fn share_count(&self) -> (r: u64)
        ensures
            r as nat == self.holders(),
    {
        self.holders
    }

    /// Device the engine was created on.
    pub fn engine_device(&self) -> (r: DeviceId)
        ensures
            r == self.device(),
    {
        self.device
    }

    /// Hands out one more share of a live engine.
    pub fn share(&mut self)
        requires
            old(self).holders() > 0,
            old(self).holders() < u64::MAX,
        ensures
            final(self).device() == old(self).device(),
            final(self).holders() == old(self).holders() + 1,
    {
        self.holders = self.holders + 1;
    }

    /// Gives one share back; returns the steps that destroy the engine when
    /// it was the last one, and no step otherwise.
    pub fn release(&mut self) -> (r: Vec<Teardown>)
        requires
            old(self).holders() > 0,
        ensures
            final(self).device() == old(self).device(),
            final(self).holders() == old(self).holders() - 1,
            r@ == release_effect(old(self).device(), old(self).holders()),
    {
        self.holders = self.holders - 1;
        if self.holders == 0 {
            let mut steps = release_steps(self.device, NativeObject::Engine);
            let mut runtime = release_steps(self.device, NativeObject::Runtime);
            steps.append(&mut runtime);
            assert(steps@ =~= engine_release(self.device));
            steps
        } else {
            let steps: Vec<Teardown> = Vec::new();
            assert(steps@ =~= release_effect(self.device, (self.holders + 1) as nat));
            steps
        }
    }
}


/// Releasing the execution contexts among the first `n` of a request that
/// were created, in order of position.
pub open spec fn context_releases(device: DeviceId, created: Seq<bool>, n: nat) -> Seq<Teardown>
    decreases n,
{
    if n == 0 {
        Seq::empty()
    } else {
        context_releases(device, created, (n - 1) as nat) + if created[n - 1] {
            release_of(device, NativeObject::ExecutionContext { index: (n - 1) as usize })
        } else {
            Seq::empty()
        }
    }
}

/// Whether every requested execution context was created.
pub open spec fn all_created(created: Seq<bool>) -> bool {
    forall|i: int| 0 <= i < created.len() ==> created[i]
}

impl EngineShare {
    /// Settles a request for `created.len()` execution contexts that share
    /// this engine, which the request took over from its caller. `created`
    /// tells, for each, whether the native call returned a context.
    ///
    /// When all were created, each holds a share and the request's own share
    /// is given back. Otherwise the request fails: the contexts that were
    /// created are released, then the request's share.
    pub fn settle_contexts(&mut self, created: &[bool]) -> (r: (Result<(), Failure>, Vec<Teardown>))
        requires
            old(self).holders() > 0,
            old(self).holders() + created@.len() <= u64::MAX,
        ensures
            final(self).device() == old(self).device(),
            all_created(created@) ==> {
                &&& r.0 == Ok::<(), Failure>(())
                &&& final(self).holders() == old(self).holders() + created@.len() - 1
                &&& r.1@ == release_effect(
                    old(self).device(),
                    old(self).holders() + created@.len(),
                )
            },
            !all_created(created@) ==> {
                &&& r.0 == Err::<(), Failure>(Failure::NullResult)
                &&& final(self).holders() == old(self).holders() - 1
                &&& r.1@ == context_releases(old(self).device(), created@, created@.len())
                    + release_effect(old(self).device(), old(self).holders())
            },
    {
        let mut steps: Vec<Teardown> = Vec::new();
        let mut complete = true;
        let mut i: usize = 0;
        while i < created.len()
            invariant
                i <= created@.len(),
                complete == all_created(created@.subrange(0, i as int)),
                steps@ == context_releases(self.device, created@, i as nat),
            decreases created@.len() - i,
        {
            if created[i] {
                let mut one = release_steps(self.device, NativeObject::ExecutionContext { index: i });
                steps.append(&mut one);
            } else {
                complete = false;
            }
            let ghost before = created@.subrange(0, i as int);
            assert(created@.subrange(0, i as int + 1) =~= before.push(created@[i as int]));
            assert(all_created(before.push(created@[i as int])) == (all_created(before)
                && created@[i as int])) by {
                let after = before.push(created@[i as int]);
                if all_created(after) {
                    assert forall|j: int| 0 <= j < before.len() implies before[j] by {
                        assert(after[j] == before[j]);
                    }
                    assert(after[before.len() as int] == created@[i as int]);
                }
            }
            i = i + 1;
        }
        assert(created@.subrange(0, created@.len() as int) =~= created@);
        if complete {
            self.holders = self.holders + created.len() as u64;
            let mut rest = self.release();
            (Ok(()), rest)
        } else {
            let mut rest = self.release();
            steps.append(&mut rest);
            (Err(Failure::NullResult), steps)
        }
    }
}

/// What giving back one of `holders` shares of an engine on `device` does.
pub open spec fn release_effect(device: DeviceId, holders: nat) -> Seq<Teardown> {
    if holders == 1 {
        engine_release(device)
    } else {
        Seq::empty()
    }
}

/// The steps of `n` successive releases, starting from `holders` shares.
pub open spec fn releases(device: DeviceId, holders: nat, n: nat) -> Seq<Teardown>
    decreases n,
{
    if n == 0 {
        Seq::empty()
    } else {
        release_effect(device, holders) + releases(device, (holders - 1) as nat, (n - 1) as nat)
    }
}

/// Releasing fewer shares than are held never destroys the engine: an engine
/// stays alive while any execution context still holds a share of it, and it
/// is destroyed, once, by the release of the last share.
pub proof fn lemma_engine_outlives_shares(device: DeviceId, holders: nat, n: nat)
    requires
        n <= holders,
    ensures
        n < holders ==> releases(device, holders, n) == Seq::<Teardown>::empty(),
        n == holders && holders > 0 ==> releases(device, holders, n) == engine_release(device),
    decreases n,
{
    if n > 0 {
        lemma_engine_outlives_shares(device, (holders - 1) as nat, (n - 1) as nat);
        let rest = releases(device, (holders - 1) as nat, (n - 1) as nat);
        assert(releases(device, holders, n) == release_effect(device, holders) + rest);
        if holders > 1 {
            assert(release_effect(device, holders) == Seq::<Teardown>::empty());
            assert(releases(device, holders, n) =~= rest);
        } else {
            assert(rest == Seq::<Teardown>::empty());
            assert(releases(device, holders, n) =~= engine_release(device));
        }
    }
}

/// Every destroy step comes right after a step that makes `device` current.
pub open spec fn device_current_before_destroy(steps: Seq<Teardown>, device: DeviceId) -> bool {
    forall|i: int|
        0 <= i < steps.len() && (#[trigger] steps[i]) is Destroy ==> i > 0 && steps[i - 1]
            == (Teardown::MakeCurrent { device })
}

proof fn lemma_device_first_concat(a: Seq<Teardown>, b: Seq<Teardown>, device: DeviceId)
    requires
        device_current_before_destroy(a, device),
        device_current_before_destroy(b, device),
    ensures
        device_current_before_destroy(a + b, device),
{
    let c = a + b;
    assert forall|i: int| 0 <= i < c.len() && (#[trigger] c[i]) is Destroy implies i > 0 && c[i
        - 1] == (Teardown::MakeCurrent { device }) by {
        if i < a.len() {
            assert(c[i] == a[i]);
            assert(c[i - 1] == a[i - 1]);
        } else {
            assert(c[i] == b[i - a.len()]);
            assert(b[i - a.len()] is Destroy);
            if i - 1 >= a.len() {
                assert(c[i - 1] == b[i - 1 - a.len()]);
            }
        }
    }
}

proof fn lemma_release_of_device_first(device: DeviceId, object: NativeObject)
    ensures
        device_current_before_destroy(release_of(device, object), device),
{
    let steps = release_of(device, object);
    assert forall|i: int| 0 <= i < steps.len() && (#[trigger] steps[i]) is Destroy implies i > 0
        && steps[i - 1] == (Teardown::MakeCurrent { device }) by {
        if i == 0 {
            assert(steps[0] == (Teardown::MakeCurrent { device }));
        }
    }
}

proof fn lemma_contexts_device_first(device: DeviceId, created: Seq<bool>, n: nat)
    requires
        n <= created.len(),
    ensures
        device_current_before_destroy(context_releases(device, created, n), device),
    decreases n,
{
    if n > 0 {
        lemma_contexts_device_first(device, created, (n - 1) as nat);
        let tail = if created[n - 1] {
            release_of(device, NativeObject::ExecutionContext { index: (n - 1) as usize })
        } else {
            Seq::empty()
        };
        lemma_release_of_device_first(
            device,
            NativeObject::ExecutionContext { index: (n - 1) as usize },
        );
        lemma_device_first_concat(context_releases(device, created, (n - 1) as nat), tail, device);
    }
}

/// Every teardown this module plans destroys a native object only right
/// after making the object's device current: for an exclusively owned
/// object, for giving back a share of an engine, and for a failed request
/// of execution contexts.
pub proof fn lemma_teardown_makes_device_current(
    device: DeviceId,
    object: NativeObject,
    holders: nat,
    created: Seq<bool>,
)
    ensures
        device_current_before_destroy(release_of(device, object), device),
        device_current_before_destroy(release_effect(device, holders), device),
        device_current_before_destroy(
            context_releases(device, created, created.len()) + release_effect(device, holders),
            device,
        ),
{
    lemma_release_of_device_first(device, object);
    lemma_release_of_device_first(device, NativeObject::Engine);
    lemma_release_of_device_first(device, NativeObject::Runtime);
    lemma_device_first_concat(
        release_of(device, NativeObject::Engine),
        release_of(device, NativeObject::Runtime),
        device,
    );
    assert(device_current_before_destroy(Seq::<Teardown>::empty(), device));
    lemma_contexts_device_first(device, created, created.len());
    lemma_device_first_concat(
        context_releases(device, created, created.len()),
        release_effect(device, holders),
        device,
    );
}

} // verus!
