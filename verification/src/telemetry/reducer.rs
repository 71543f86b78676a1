use vstd::prelude::*;

use super::extensions::{
    apply_extensions, extension_accepted, extension_written, extensions_changed, lookup,
    unique_namespaces,
};
use super::frames::stamped;
use super::frames::stamped_below;
use super::groups::{
    SLOT_COUNT, aero_after, aero_offers, apply_aero, apply_conditions, apply_damage, apply_job,
    apply_lap, apply_lights, apply_navigation, apply_session, apply_tyres, apply_vehicle,
    conditions_after, conditions_offers, damage_after, damage_offers, job_after, job_frames,
    lap_after, lap_offers, lights_after, lights_offers, navigation_after, navigation_offers,
    session_after, session_offers, tyres_after, tyres_offers, vehicle_after, vehicle_offers,
};
use super::model::{MonotonicTimestamp, TELEMETRY_SCHEMA_VERSION};
use super::state::{
    AeroState, ExtensionEntry, SessionUpdate, VehicleUpdate, LapUpdate, TyreUpdate, ConditionsState, DamageState, JobState, LapState, LightsState, Meta, Namespaced,
    NavigationState, SessionState, TelemetrySnapshot, TelemetryUpdate, TyreState, VehicleState,
};

verus! {

/// Whether an update naming session `update_session` starts a new session
/// over a snapshot of session `current`.
pub open spec fn is_new_session(current: Option<String>, update_session: Option<String>) -> bool {
    update_session matches Some(s) && !(current matches Some(c) && c@ == s@)
}

/// Whether the update supplies a value for field slot `i` outside the job group.
pub open spec fn update_offers(u: TelemetryUpdate, i: int) -> bool {
    if i < 17 {
        vehicle_offers(u.vehicle, i)
    } else if i < 44 {
        lap_offers(u.lap, i)
    } else if i < 52 {
        session_offers(u.session, i)
    } else if i < 83 {
        tyres_offers(u.tyres, i)
    } else if i < 86 {
        conditions_offers(u.conditions, i)
    } else if i < 104 {
        damage_offers(u.damage, i)
    } else if i < 112 {
        aero_offers(u.aero, i)
    } else if i < 115 {
        navigation_offers(u.navigation, i)
    } else if i < 124 {
        lights_offers(u.lights, i)
    } else {
        false
    }
}

/// Frames recorded by a reducer that has seen nothing in this session.
pub open spec fn no_frames() -> Seq<Option<u32>> {
    Seq::new(SLOT_COUNT as nat, |i: int| None)
}

/// The later of the recorded capture time and a new receive time.
pub open spec fn latest(current: Option<MonotonicTimestamp>, candidate: MonotonicTimestamp) -> MonotonicTimestamp {
    match current {
        None => candidate,
        Some(c) => if c.micros() >= candidate.micros() {
            c
        } else {
            candidate
        },
    }
}

/// Session-aware, per-field reducer for partial adapter updates.
#[derive(Debug)]
pub struct TelemetryReducer {
    snapshot: TelemetrySnapshot,
    field_frames: Vec<Option<u32>>,
    extension_frames: Vec<Namespaced<u32>>,
}

impl TelemetryReducer {
    /// The latest snapshot.
    pub closed spec fn current(self) -> TelemetrySnapshot {
        self.snapshot
    }

    /// The frame last written to each field slot in the current session.
    pub closed spec fn frames(self) -> Seq<Option<u32>> {
        self.field_frames@
    }

    /// The frame last written to each extension namespace in the current session.
    pub closed spec fn namespace_frames(self) -> Seq<Namespaced<u32>> {
        self.extension_frames@
    }

    /// Every field slot is tracked and no namespace occurs twice.
    pub open spec fn well_formed(self) -> bool {
        &&& self.frames().len() == SLOT_COUNT
        &&& unique_namespaces(self.current().extensions@)
        &&& unique_namespaces(self.namespace_frames())
    }

    /// `post` and `changed` are what applying `u` to `pre` gives: the update's
    /// session id, when new, first resets the state; then every supplied value
    /// is written unless its field recorded a newer frame; a completed job
    /// clears its details; and the sequence advances once when anything changed.
    pub open spec fn applied(pre: TelemetryReducer, u: TelemetryUpdate, post: TelemetryReducer, changed: bool) -> bool {
        let s0 = pre.current();
        let s1 = post.current();
        let reset = is_new_session(s0.meta.session_id, u.session_id);
        let bf = if reset {
            no_frames()
        } else {
            pre.frames()
        };
        let bx = if reset {
            Seq::empty()
        } else {
            pre.namespace_frames()
        };
        let bs = if reset {
            Seq::empty()
        } else {
            s0.extensions@
        };
        let fr = u.frame_id;
        let base_sequence = if reset {
            0
        } else {
            s0.meta.sequence
        };
        let base_captured = if reset {
            None
        } else {
            s0.meta.captured_at
        };
        &&& post.well_formed()
        &&& changed == (reset || !same_groups(s0, s1) || extensions_changed(u.extensions@, bx, bs, fr))
        &&& !changed ==> s1 == s0
        &&& s1.meta.schema_version == (if reset {
            TELEMETRY_SCHEMA_VERSION
        } else {
            s0.meta.schema_version
        })
        &&& s1.meta.game_id == s0.meta.game_id
        &&& s1.meta.session_id == (if reset {
            u.session_id
        } else {
            s0.meta.session_id
        })
        &&& s1.meta.sequence == (if changed {
            if base_sequence == u64::MAX {
                u64::MAX
            } else {
                (base_sequence + 1) as u64
            }
        } else {
            base_sequence
        })
        &&& s1.meta.captured_at == (if changed {
            Some(latest(base_captured, u.received_at))
        } else {
            base_captured
        })
        &&& groups_applied(
            if reset {
                cleared(s0)
            } else {
                s0
            },
            s1,
            u,
            bf,
        )
        &&& post.frames() == frames_after(u, bf)
        &&& forall|k: Seq<char>|
            #[trigger] lookup(s1.extensions@, k) == (if extension_written(u.extensions@, bx, bs, k, fr) {
                lookup(u.extensions@, k)
            } else if reset {
                None
            } else {
                lookup(s0.extensions@, k)
            })
        &&& forall|k: Seq<char>|
            #[trigger] lookup(post.namespace_frames(), k) == (if fr is Some && extension_accepted(
                u.extensions@,
                bx,
                k,
                fr,
            ) {
                fr
            } else if reset {
                None
            } else {
                lookup(pre.namespace_frames(), k)
            })
    }

    /// Creates an empty reducer with no game id.
    pub fn new() -> (r: TelemetryReducer)
        ensures
            r.well_formed(),
            r.current().is_empty_with(Meta::empty()),
            r.frames() == no_frames(),
            r.namespace_frames().len() == 0,
    {
        TelemetryReducer {
            snapshot: TelemetrySnapshot::default(),
            field_frames: no_frame_table(),
            extension_frames: Vec::new(),
        }
    }

    /// Creates an empty reducer associated with one stable adapter id.
    pub fn with_game_id(game_id: String) -> (r: TelemetryReducer)
        ensures
            r.well_formed(),
            r.current().is_empty_with(Meta { game_id: Some(game_id), ..Meta::empty() }),
            r.frames() == no_frames(),
            r.namespace_frames().len() == 0,
    {
        let mut reducer = TelemetryReducer::new();
        reducer.snapshot.meta.game_id = Some(game_id);
        reducer
    }

    /// Returns the latest complete canonical snapshot.
    pub fn snapshot(&self) -> (s: &TelemetrySnapshot)
        ensures
            *s == self.current(),
    {
        &self.snapshot
    }

    /// Consumes the reducer and returns its latest snapshot.
    pub fn into_snapshot(self) -> (s: TelemetrySnapshot)
        ensures
            s == self.current(),
    {
        self.snapshot
    }

    fn apply_session_identity(&mut self, session_id: Option<String>) -> (reset: bool)
        requires
            old(self).well_formed(),
        ensures
            final(self).well_formed(),
            reset == is_new_session(old(self).current().meta.session_id, session_id),
            reset ==> final(self).current().is_empty_with(
                Meta {
                    game_id: old(self).current().meta.game_id,
                    session_id: session_id,
                    ..Meta::empty()
                },
            ),
            reset ==> final(self).frames() == no_frames(),
            reset ==> final(self).namespace_frames() == Seq::<Namespaced<u32>>::empty(),
            reset ==> final(self).current().extensions@ == Seq::<ExtensionEntry>::empty(),
            !reset ==> *final(self) == *old(self),
    {
        let id = match session_id {
            None => return false,
            Some(id) => id,
        };
        let same = match &self.snapshot.meta.session_id {
            Some(current) => *current == id,
            None => false,
        };
        if same {
            return false;
        }
        let game_id = self.snapshot.meta.game_id.take();
        let mut fresh = TelemetrySnapshot::default();
        fresh.meta.game_id = game_id;
        fresh.meta.session_id = Some(id);
        self.snapshot = fresh;
        self.field_frames = no_frame_table();
        self.extension_frames = Vec::new();
        assert(self.extension_frames@ =~= Seq::<Namespaced<u32>>::empty());
        assert(self.snapshot.extensions@ =~= Seq::<ExtensionEntry>::empty());
        true
    }

    /// Offers the field groups of `u`, whose parts are passed one by one, and
    /// records their frames.
    fn apply_fields(
        &mut self,
        vehicle: VehicleUpdate,
        lap: LapUpdate,
        session: SessionUpdate,
        tyres: TyreUpdate,
        conditions: ConditionsState,
        damage: DamageState,
        aero: AeroState,
        navigation: NavigationState,
        lights: LightsState,
        job: JobState,
        frame_id: Option<u32>,
        Ghost(u): Ghost<TelemetryUpdate>,
    ) -> (changed: bool)
        requires
            old(self).frames().len() == SLOT_COUNT,
            vehicle == u.vehicle,
            lap == u.lap,
            session == u.session,
            tyres == u.tyres,
            conditions == u.conditions,
            damage == u.damage,
            aero == u.aero,
            navigation == u.navigation,
            lights == u.lights,
            job == u.job,
            frame_id == u.frame_id,
        ensures
            final(self).current().meta == old(self).current().meta,
            final(self).current().extensions == old(self).current().extensions,
            final(self).namespace_frames() == old(self).namespace_frames(),
            groups_applied(old(self).current(), final(self).current(), u, old(self).frames()),
            changed == !same_groups(old(self).current(), final(self).current()),
            final(self).frames() == frames_after(u, old(self).frames()),
    {
        let ghost bf = self.field_frames@;
        let ghost s0 = self.snapshot;
        let ghost offered = |i: int| update_offers(u, i);
        assert(self.field_frames@ =~= stamped_below(bf, offered, frame_id, 0));
        let mut changed = false;
        let c = apply_vehicle(&mut self.field_frames, &mut self.snapshot.vehicle, vehicle, frame_id, Ghost(bf), Ghost(offered));
        changed = changed || c;
        let c = apply_lap(&mut self.field_frames, &mut self.snapshot.lap, lap, frame_id, Ghost(bf), Ghost(offered));
        changed = changed || c;
        let c = apply_session(&mut self.field_frames, &mut self.snapshot.session, session, frame_id, Ghost(bf), Ghost(offered));
        changed = changed || c;
        let c = apply_tyres(&mut self.field_frames, &mut self.snapshot.tyres, tyres, frame_id, Ghost(bf), Ghost(offered));
        changed = changed || c;
        let c = apply_conditions(&mut self.field_frames, &mut self.snapshot.conditions, conditions, frame_id, Ghost(bf), Ghost(offered));
        changed = changed || c;
        let c = apply_damage(&mut self.field_frames, &mut self.snapshot.damage, damage, frame_id, Ghost(bf), Ghost(offered));
        changed = changed || c;
        let c = apply_aero(&mut self.field_frames, &mut self.snapshot.aero, aero, frame_id, Ghost(bf), Ghost(offered));
        changed = changed || c;
        let c = apply_navigation(&mut self.field_frames, &mut self.snapshot.navigation, navigation, frame_id, Ghost(bf), Ghost(offered));
        changed = changed || c;
        let c = apply_lights(&mut self.field_frames, &mut self.snapshot.lights, lights, frame_id, Ghost(bf), Ghost(offered));
        changed = changed || c;
        let ghost mid = self.field_frames@;
        assert(mid =~= stamped(bf, offered, frame_id));
        let c = apply_job(&mut self.field_frames, &mut self.snapshot.job, job, frame_id);
        assert(job_after(s0.job, u.job, mid, frame_id) == job_after(s0.job, u.job, bf, frame_id));
        changed = changed || c;
        proof {
            reveal(groups_applied);
        }
        changed
    }

    /// Applies one partial update, returning whether observable state changed.
    ///
    /// A new session clears old game data. Frame ordering is tracked per field,
    /// allowing a late packet to populate an untouched field without replacing
    /// a newer value from another packet group.
    pub fn apply(&mut self, update: TelemetryUpdate) -> (changed: bool)
        requires
            old(self).well_formed(),
            unique_namespaces(update.extensions@),
        ensures
            TelemetryReducer::applied(*old(self), update, *final(self), changed),
    {
        let ghost u = update;
        let ghost pre = *self;
        let TelemetryUpdate {
            received_at,
            session_id,
            frame_id,
            vehicle,
            lap,
            session,
            tyres,
            conditions,
            damage,
            aero,
            navigation,
            lights,
            job,
            extensions,
        } = update;
        let reset = self.apply_session_identity(session_id);
        let ghost base = *self;
        proof {
            let s0 = pre.current();
            let b = if reset { cleared(s0) } else { s0 };
            assert(same_groups(base.current(), b));
            lemma_groups_applied_base(base.current(), b, u, base.frames());
        }
        let c = self.apply_fields(vehicle, lap, session, tyres, conditions, damage, aero, navigation, lights, job, frame_id, Ghost(u));
        let mut changed = reset || c;
        let ghost fielded = *self;
        let e = apply_extensions(&mut self.extension_frames, &mut self.snapshot.extensions, extensions, frame_id);
        changed = changed || e;
        if changed {
            self.snapshot.meta.sequence = self.snapshot.meta.sequence.saturating_add(1);
            self.snapshot.meta.captured_at = Some(latest_timestamp(self.snapshot.meta.captured_at, received_at));
        }
        proof {
            assert(same_groups(fielded.current(), self.current()));
            lemma_groups_applied_post(base.current(), fielded.current(), self.current(), u, base.frames());
        }
        changed
    }
}

impl Default for TelemetryReducer {
    fn default() -> (r: TelemetryReducer)
        ensures
            r.well_formed(),
            r.current().is_empty_with(Meta::empty()),
            r.frames() == no_frames(),
            r.namespace_frames().len() == 0,
    {
        TelemetryReducer::new()
    }
}

/// The snapshot `s` with every field group emptied.
pub open spec fn cleared(s: TelemetrySnapshot) -> TelemetrySnapshot {
    TelemetrySnapshot {
        vehicle: VehicleState::empty(),
        lap: LapState::empty(),
        session: SessionState::empty(),
        tyres: TyreState::empty(),
        conditions: ConditionsState::empty(),
        damage: DamageState::empty(),
        aero: AeroState::empty(),
        navigation: NavigationState::empty(),
        lights: LightsState::empty(),
        job: JobState::empty(),
        ..s
    }
}

/// Whether `a` and `b` hold the same field groups.
pub open spec fn same_groups(a: TelemetrySnapshot, b: TelemetrySnapshot) -> bool {
    &&& a.vehicle == b.vehicle
    &&& a.lap == b.lap
    &&& a.session == b.session
    &&& a.tyres == b.tyres
    &&& a.conditions == b.conditions
    &&& a.damage == b.damage
    &&& a.aero == b.aero
    &&& a.navigation == b.navigation
    &&& a.lights == b.lights
    &&& a.job == b.job
}

/// Whether the field groups of `post` are those of `base` after the values of
/// `u` are offered against the frames `bf`.
#[verifier::opaque]
pub open spec fn groups_applied(
    base: TelemetrySnapshot,
    post: TelemetrySnapshot,
    u: TelemetryUpdate,
    bf: Seq<Option<u32>>,
) -> bool {
    let fr = u.frame_id;
    &&& post.vehicle == vehicle_after(base.vehicle, u.vehicle, bf, fr)
    &&& post.lap == lap_after(base.lap, u.lap, bf, fr)
    &&& post.session == session_after(base.session, u.session, bf, fr)
    &&& post.tyres == tyres_after(base.tyres, u.tyres, bf, fr)
    &&& post.conditions == conditions_after(base.conditions, u.conditions, bf, fr)
    &&& post.damage == damage_after(base.damage, u.damage, bf, fr)
    &&& post.aero == aero_after(base.aero, u.aero, bf, fr)
    &&& post.navigation == navigation_after(base.navigation, u.navigation, bf, fr)
    &&& post.lights == lights_after(base.lights, u.lights, bf, fr)
    &&& post.job == job_after(base.job, u.job, bf, fr)
}


/// The frame table after the values of `u` are offered against `bf`.
pub open spec fn frames_after(u: TelemetryUpdate, bf: Seq<Option<u32>>) -> Seq<Option<u32>> {
    job_frames(u.job, stamped(bf, |i: int| update_offers(u, i), u.frame_id), u.frame_id)
}

/// Only the field groups of the base matter to `groups_applied`.
proof fn lemma_groups_applied_base(a: TelemetrySnapshot, b: TelemetrySnapshot, u: TelemetryUpdate, bf: Seq<Option<u32>>)
    requires
        same_groups(a, b),
    ensures
        forall|p: TelemetrySnapshot| #[trigger] groups_applied(a, p, u, bf) == groups_applied(b, p, u, bf),
{
    reveal(groups_applied);
}

/// Only the field groups of the result matter to `groups_applied`.
proof fn lemma_groups_applied_post(
    b: TelemetrySnapshot,
    p: TelemetrySnapshot,
    q: TelemetrySnapshot,
    u: TelemetryUpdate,
    bf: Seq<Option<u32>>,
)
    requires
        same_groups(p, q),
    ensures
        groups_applied(b, p, u, bf) == groups_applied(b, q, u, bf),
{
    reveal(groups_applied);
}

/// A frame table with nothing recorded.
fn no_frame_table() -> (v: Vec<Option<u32>>)
    ensures
        v@ == no_frames(),
{
    let mut v: Vec<Option<u32>> = Vec::new();
    while v.len() < SLOT_COUNT
        invariant
            v.len() <= SLOT_COUNT,
            forall|i: int| 0 <= i < v.len() ==> v@[i] is None,
        decreases SLOT_COUNT - v.len(),
    {
        v.push(None);
    }
    assert(v@ =~= no_frames());
    v
}

/// The later of the recorded capture time and a new receive time.
pub fn latest_timestamp(current: Option<MonotonicTimestamp>, candidate: MonotonicTimestamp) -> (t: MonotonicTimestamp)
    ensures
        t == latest(current, candidate),
{
    match current {
        None => candidate,
        Some(c) => if c.as_micros() >= candidate.as_micros() {
            c
        } else {
            candidate
        },
    }
}

} // verus!
