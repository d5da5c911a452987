//! What holds of every run of the handshake pump.
use vstd::prelude::*;
use crate::error::EchoError;
use crate::pump::{Action, Event, Pump};

verus! {

/// The pump after it has been fed every event of `evs`, in order.
pub open spec fn run(p: Pump, evs: Seq<Event>) -> Pump
    decreases evs.len(),
{
    if evs.len() == 0 {
        p
    } else {
        run(p.next(evs[0]), evs.drop_first())
    }
}

/// How many loop iterations the pump tried to enter while fed `evs`: the
/// number of times it asked `is_handshaking()` and was told `true`.
pub open spec fn loop_entries(p: Pump, evs: Seq<Event>) -> nat
    decreases evs.len(),
{
    if evs.len() == 0 {
        0
    } else {
        (if p.pending == Action::AskHandshaking && evs[0] == Event::Handshaking(true) {
            1nat
        } else {
            0nat
        }) + loop_entries(p.next(evs[0]), evs.drop_first())
    }
}

proof fn lemma_bounded(p: Pump, evs: Seq<Event>)
    requires
        p.wf(),
        p.pending != Action::Complete,
        forall|i: int| 0 <= i < evs.len() ==> evs[i] != Event::Handshaking(false),
    ensures
        run(p, evs).wf(),
        run(p, evs).bound == p.bound,
        run(p, evs).pending != Action::Complete,
        p.pending is Fail ==> run(p, evs) == p && loop_entries(p, evs) == 0,
        !(p.pending is Fail) ==> loop_entries(p, evs) <= p.remaining + 1,
        !(p.pending is Fail) && loop_entries(p, evs) == p.remaining + 1 ==> run(p, evs).pending
            == Action::Fail(EchoError::HandshakeTimeout { bound: p.bound }),
    decreases evs.len(),
{
    if evs.len() > 0 {
        let rest = evs.drop_first();
        assert forall|i: int| 0 <= i < rest.len() implies rest[i] != Event::Handshaking(false) by {
            assert(rest[i] == evs[i + 1]);
        }
        assert(evs[0] != Event::Handshaking(false));
        lemma_bounded(p.next(evs[0]), rest);
    }
}

/// A session that never reports the handshake complete cannot keep the pump
/// going: at most `bound + 1` loop entries are ever attempted, the entry after
/// the budget is spent ends the pump with `HandshakeTimeout` carrying the
/// bound, and the pump never reports success.
pub proof fn bounded_termination(bound: u32, evs: Seq<Event>)
    requires
        forall|i: int| 0 <= i < evs.len() ==> evs[i] != Event::Handshaking(false),
    ensures
        run(Pump::initial(bound), evs).pending != Action::Complete,
        run(Pump::initial(bound), evs).iterations() <= bound,
        loop_entries(Pump::initial(bound), evs) <= bound + 1,
        loop_entries(Pump::initial(bound), evs) == bound + 1 ==> run(Pump::initial(bound), evs).pending
            == Action::Fail(EchoError::HandshakeTimeout { bound }),
{
    lemma_bounded(Pump::initial(bound), evs);
}

/// The pump asks for `read_tls` only right after `wants_read()` answered
/// `true`, and for `write_tls` only right after `wants_write()` answered
/// `true`; once `wants_read()` answers `false` it goes on to the writes, and
/// once `wants_write()` answers `false` the write-draining phase is over and
/// the next iteration is checked.
pub proof fn ordering(p: Pump, ev: Event)
    ensures
        p.next(ev).pending == Action::ReadTls && p.pending != Action::ReadTls ==> p.pending
            == Action::AskWantsRead && ev == Event::WantsRead(true),
        p.next(ev).pending == Action::WriteTls && p.pending != Action::WriteTls ==> p.pending
            == Action::AskWantsWrite && ev == Event::WantsWrite(true),
        p.pending == Action::AskWantsRead && ev == Event::WantsRead(false) ==> p.next(ev).pending
            == Action::AskWantsWrite,
        p.pending == Action::AskWantsWrite && ev == Event::WantsWrite(false) ==> p.next(ev).pending
            == Action::AskHandshaking,
{
}

/// Once finished, the pump stays finished with the same outcome.
pub proof fn finished_is_final(p: Pump, evs: Seq<Event>)
    requires
        p.is_finished(),
    ensures
        run(p, evs) == p,
    decreases evs.len(),
{
    if evs.len() > 0 {
        finished_is_final(p.next(evs[0]), evs.drop_first());
    }
}

/// A session that reports the handshake complete once it has read
/// `reads_needed` batches of records and written `writes_needed` batches,
/// and whose reads, record processing and writes always succeed.
pub struct ScriptedSession {
    pub reads_needed: nat,
    pub writes_needed: nat,
    pub reads: nat,
    pub writes: nat,
}

impl ScriptedSession {
    pub open spec fn fresh(reads_needed: nat, writes_needed: nat) -> ScriptedSession {
        ScriptedSession { reads_needed, writes_needed, reads: 0, writes: 0 }
    }

    /// What the session reports when the driver performs `a` on it.
    pub open spec fn answer(self, a: Action) -> Event {
        match a {
            Action::AskHandshaking => Event::Handshaking(
                self.reads < self.reads_needed || self.writes < self.writes_needed,
            ),
            Action::AskWantsRead => Event::WantsRead(self.reads < self.reads_needed),
            Action::ReadTls => Event::TlsRead(true),
            Action::ProcessPackets => Event::PacketsProcessed(true),
            Action::AskWantsWrite => Event::WantsWrite(self.writes < self.writes_needed),
            Action::WriteTls => Event::TlsWritten(true),
            _ => Event::Handshaking(false),
        }
    }

    /// The session after the driver performs `a` on it.
    pub open spec fn perform(self, a: Action) -> ScriptedSession {
        match a {
            Action::ReadTls => ScriptedSession { reads: self.reads + 1, ..self },
            Action::WriteTls => ScriptedSession { writes: self.writes + 1, ..self },
            _ => self,
        }
    }
}

/// The pump and the session after `fuel` actions of a driver that performs
/// each pending action on `s` and reports the answer back to the pump.
pub open spec fn drive(p: Pump, s: ScriptedSession, fuel: nat) -> (Pump, ScriptedSession)
    decreases fuel,
{
    if fuel == 0 {
        (p, s)
    } else {
        drive(p.next(s.answer(p.pending)), s.perform(p.pending), (fuel - 1) as nat)
    }
}

/// How many actions the driver performs on a fresh scripted session before
/// the pump reports completion.
pub open spec fn scripted_steps(reads_needed: nat, writes_needed: nat) -> nat {
    if reads_needed == 0 {
        if writes_needed == 0 {
            1
        } else {
            2 * writes_needed + 4
        }
    } else {
        5 * reads_needed + 2 * writes_needed + 1
    }
}

proof fn lemma_drive_add(p: Pump, s: ScriptedSession, a: nat, b: nat)
    ensures
        drive(p, s, a + b) == drive(drive(p, s, a).0, drive(p, s, a).1, b),
    decreases a,
{
    if a > 0 {
        lemma_drive_add(p.next(s.answer(p.pending)), s.perform(p.pending), (a - 1) as nat, b);
        assert(drive(p, s, a + b) == drive(
            p.next(s.answer(p.pending)),
            s.perform(p.pending),
            ((a - 1) as nat + b) as nat,
        ));
    }
}

proof fn lemma_drain(p: Pump, s: ScriptedSession)
    requires
        p.pending == Action::AskWantsWrite,
        s.writes <= s.writes_needed,
    ensures
        drive(p, s, (2 * (s.writes_needed - s.writes) + 1) as nat) == (
            Pump { pending: Action::AskHandshaking, ..p },
            ScriptedSession { writes: s.writes_needed, ..s },
        ),
    decreases s.writes_needed - s.writes,
{
    let d = (2 * (s.writes_needed - s.writes) + 1) as nat;
    if s.writes == s.writes_needed {
        assert(drive(p, s, d) == drive(p.next(s.answer(p.pending)), s.perform(p.pending), 0));
    } else {
        let p1 = p.next(s.answer(p.pending));
        let s1 = s.perform(p.pending);
        assert(p1 == Pump { pending: Action::WriteTls, ..p });
        let p2 = p1.next(s1.answer(p1.pending));
        let s2 = s1.perform(p1.pending);
        assert(p2 == p);
        assert(s2 == ScriptedSession { writes: s.writes + 1, ..s });
        assert(drive(p, s, d) == drive(p1, s1, (d - 1) as nat));
        assert(drive(p1, s1, (d - 1) as nat) == drive(p2, s2, (d - 2) as nat));
        lemma_drain(p2, s2);
    }
}

proof fn lemma_rounds(p: Pump, s: ScriptedSession)
    requires
        p.pending == Action::AskHandshaking,
        s.reads < s.reads_needed,
        s.writes <= s.writes_needed,
        p.remaining >= s.reads_needed - s.reads,
    ensures
        drive(
            p,
            s,
            (5 * (s.reads_needed - s.reads) + 2 * (s.writes_needed - s.writes) + 1) as nat,
        ) == (
            Pump {
                pending: Action::Complete,
                remaining: (p.remaining - (s.reads_needed - s.reads)) as u32,
                ..p
            },
            ScriptedSession { reads: s.reads_needed, writes: s.writes_needed, ..s },
        ),
    decreases s.reads_needed - s.reads,
{
    let total = (5 * (s.reads_needed - s.reads) + 2 * (s.writes_needed - s.writes) + 1) as nat;
    let p1 = p.next(s.answer(p.pending));
    assert(p1 == Pump { pending: Action::AskWantsRead, remaining: (p.remaining - 1) as u32, ..p });
    let p2 = p1.next(s.answer(p1.pending));
    assert(p2 == Pump { pending: Action::ReadTls, ..p1 });
    let p3 = p2.next(s.answer(p2.pending));
    let s3 = s.perform(p2.pending);
    assert(p3 == Pump { pending: Action::ProcessPackets, ..p1 });
    let p4 = p3.next(s3.answer(p3.pending));
    assert(p4 == Pump { pending: Action::AskWantsWrite, ..p1 });
    assert(drive(p, s, 4) == drive(p1, s, 3));
    assert(drive(p1, s, 3) == drive(p2, s, 2));
    assert(drive(p2, s, 2) == drive(p3, s3, 1));
    assert(drive(p3, s3, 1) == drive(p4, s3, 0));
    let dr = (2 * (s.writes_needed - s.writes) + 1) as nat;
    lemma_drain(p4, s3);
    let p5 = Pump { pending: Action::AskHandshaking, ..p1 };
    let s5 = ScriptedSession { writes: s.writes_needed, ..s3 };
    lemma_drive_add(p, s, 4, (total - 4) as nat);
    lemma_drive_add(p4, s3, dr, (total - 4 - dr) as nat);
    if s5.reads < s5.reads_needed {
        lemma_rounds(p5, s5);
        assert(total - 4 - dr == 5 * (s5.reads_needed - s5.reads) + 2 * (s5.writes_needed
            - s5.writes) + 1);
    } else {
        assert(total - 4 - dr == 1);
        assert(drive(p5, s5, 1) == drive(p5.next(s5.answer(p5.pending)), s5.perform(p5.pending), 0));
    }
}

/// Against a session that completes after `reads_needed` reads and
/// `writes_needed` writes, both within the budget, the pump reports success,
/// having started no more than `reads_needed + writes_needed` iterations.
pub proof fn completion(bound: u32, reads_needed: nat, writes_needed: nat)
    requires
        reads_needed <= bound,
        writes_needed <= bound,
    ensures
        drive(
            Pump::initial(bound),
            ScriptedSession::fresh(reads_needed, writes_needed),
            scripted_steps(reads_needed, writes_needed),
        ).0.pending == Action::Complete,
        drive(
            Pump::initial(bound),
            ScriptedSession::fresh(reads_needed, writes_needed),
            scripted_steps(reads_needed, writes_needed),
        ).0.iterations() <= reads_needed + writes_needed,
{
    let p = Pump::initial(bound);
    let s = ScriptedSession::fresh(reads_needed, writes_needed);
    let k = scripted_steps(reads_needed, writes_needed);
    if reads_needed > 0 {
        lemma_rounds(p, s);
    } else if writes_needed == 0 {
        assert(drive(p, s, 1) == drive(p.next(s.answer(p.pending)), s.perform(p.pending), 0));
    } else {
        let p1 = p.next(s.answer(p.pending));
        let p2 = p1.next(s.answer(p1.pending));
        assert(p2 == Pump { pending: Action::AskWantsWrite, remaining: (bound - 1) as u32, bound });
        assert(drive(p, s, 2) == drive(p1, s, 1));
        assert(drive(p1, s, 1) == drive(p2, s, 0));
        let dr = (2 * writes_needed + 1) as nat;
        lemma_drain(p2, s);
        lemma_drive_add(p, s, 2, (k - 2) as nat);
        lemma_drive_add(p2, s, dr, 1);
        let p3 = Pump { pending: Action::AskHandshaking, ..p2 };
        let s3 = ScriptedSession { writes: writes_needed, ..s };
        assert(drive(p3, s3, 1) == drive(p3.next(s3.answer(p3.pending)), s3.perform(p3.pending), 0));
    }
}

} // verus!
