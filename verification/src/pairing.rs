//! Watching over a pairing code until it is claimed or expires.

use vstd::prelude::*;

use crate::text::join;

verus! {

/// How long the relay sleeps between two questions for a pairing, in seconds.
pub const PAIRING_POLL_SECS: u64 = 3;

/// The Unix time by a clock that is `elapsed` seconds past the epoch; a clock
/// that stands before the epoch counts as the epoch.  The number of seconds is
/// taken as a signed one, bit by bit.
pub open spec fn unix_time(elapsed: Option<u64>) -> int {
    match elapsed {
        Some(seconds) => if seconds <= i64::MAX {
            seconds as int
        } else {
            seconds - 0x1_0000_0000_0000_0000
        },
        None => 0,
    }
}

/// The Unix time by a clock that is `elapsed` seconds past the epoch.
pub fn unix_now(elapsed: Option<u64>) -> (now: i64)
    ensures
        now == unix_time(elapsed),
{
    match elapsed {
        Some(seconds) => {
            if seconds <= 9223372036854775807 {
                seconds as i64
            } else {
                (seconds as i128 - 0x1_0000_0000_0000_0000) as i64
            }
        },
        None => 0,
    }
}

/// A pairing code that waits to be claimed.
#[derive(Debug)]
pub struct PairingTicket {
    pub manual_code: String,
    pub expires_at: i64,
}

/// The question whether a pairing was claimed, by the code that it goes by.
#[derive(Debug)]
pub struct PairingQuestion {
    pub pairing_code: Option<String>,
    pub manual_pairing_code: Option<String>,
}

/// A ticket is asked for by its manual code and no other.
pub open spec fn question_for(ticket: PairingTicket) -> PairingQuestion {
    PairingQuestion { pairing_code: None, manual_pairing_code: Some(ticket.manual_code) }
}

/// The question whether a ticket was claimed.
pub fn pairing_question(ticket: &PairingTicket) -> (question: PairingQuestion)
    ensures
        question == question_for(*ticket),
{
    PairingQuestion { pairing_code: None, manual_pairing_code: Some(ticket.manual_code.clone()) }
}

/// What happens to a pairing.
#[derive(Debug)]
pub enum PairingEvent {
    /// The time is `now`.
    Time { now: i64 },
    /// The backend says whether the code was claimed.
    Status { claimed: bool },
    /// The backend cannot be asked, for this reason.
    Failed(String),
}

/// Something to tell the user about a pairing.
#[derive(Debug)]
pub enum PairingNotice {
    Expired,
    Completed,
    NotYetClaimed,
    CheckFailed(String),
}

/// What a notice says.
pub open spec fn pairing_notice_text(notice: PairingNotice) -> Seq<char> {
    match notice {
        PairingNotice::Expired => "Pairing expired before it was claimed."@,
        PairingNotice::Completed => "Pairing completed successfully."@,
        PairingNotice::NotYetClaimed => "Pairing status: not yet claimed."@,
        PairingNotice::CheckFailed(error) => "Pairing status check failed: "@ + error@,
    }
}

impl PairingNotice {
    /// What the notice says.
    pub fn text(&self) -> (text: String)
        ensures
            text@ == pairing_notice_text(*self),
    {
        match self {
            PairingNotice::Expired => "Pairing expired before it was claimed.".to_owned(),
            PairingNotice::Completed => "Pairing completed successfully.".to_owned(),
            PairingNotice::NotYetClaimed => "Pairing status: not yet claimed.".to_owned(),
            PairingNotice::CheckFailed(error) => join(
                "Pairing status check failed: ",
                error.as_str(),
            ),
        }
    }
}

/// What the relay does next for a pairing.
#[derive(Debug)]
pub enum PairingAction {
    /// Ask the backend whether the code was claimed.
    Ask { question: PairingQuestion },
    /// Tell the user if there is something to tell, sleep, and look at the clock.
    Sleep { remark: Option<PairingNotice> },
    /// Tell the user, and watch no more.
    Stop { notice: PairingNotice },
    /// Nothing: the event does not belong here.
    Nothing,
}

/// How far the watch over a pairing has come.
#[derive(Debug, Clone, Copy, PartialEq, Eq, Structural)]
pub enum PairingPhase {
    /// The clock is looked at next.
    CheckingTime,
    /// The backend is asked.
    Asking,
    Ended,
}

/// What the watch over a pairing does on an event.  Before every question the
/// clock is looked at: an expired code is not asked for.
pub open spec fn pairing_next(
    phase: PairingPhase,
    event: PairingEvent,
    ticket: PairingTicket,
    verbose: bool,
) -> (PairingPhase, PairingAction) {
    match (phase, event) {
        (PairingPhase::CheckingTime, PairingEvent::Time { now }) => if now >= ticket.expires_at {
            (PairingPhase::Ended, PairingAction::Stop { notice: PairingNotice::Expired })
        } else {
            (PairingPhase::Asking, PairingAction::Ask { question: question_for(ticket) })
        },
        (PairingPhase::Asking, PairingEvent::Status { claimed }) => if claimed {
            (PairingPhase::Ended, PairingAction::Stop { notice: PairingNotice::Completed })
        } else {
            (
                PairingPhase::CheckingTime,
                PairingAction::Sleep {
                    remark: if verbose {
                        Some(PairingNotice::NotYetClaimed)
                    } else {
                        None
                    },
                },
            )
        },
        (PairingPhase::Asking, PairingEvent::Failed(error)) => (
            PairingPhase::Ended,
            PairingAction::Stop { notice: PairingNotice::CheckFailed(error) },
        ),
        (phase, _) => (phase, PairingAction::Nothing),
    }
}

/// The watch over a pairing.
#[derive(Debug)]
pub struct PairingWatch {
    pub phase: PairingPhase,
    pub ticket: PairingTicket,
    pub verbose: bool,
}

impl PairingWatch {
    /// A watch that begins with a look at the clock.
    pub fn new(ticket: PairingTicket, verbose: bool) -> (watch: PairingWatch)
        ensures
            watch == (PairingWatch { phase: PairingPhase::CheckingTime, ticket, verbose }),
    {
        PairingWatch { phase: PairingPhase::CheckingTime, ticket, verbose }
    }

    /// Takes an event.
    pub fn step(&mut self, event: PairingEvent) -> (action: PairingAction)
        ensures
            final(self).ticket == old(self).ticket,
            final(self).verbose == old(self).verbose,
            (final(self).phase, action) == pairing_next(
                old(self).phase,
                event,
                old(self).ticket,
                old(self).verbose,
            ),
    {
        match (self.phase, event) {
            (PairingPhase::CheckingTime, PairingEvent::Time { now }) => {
                if now >= self.ticket.expires_at {
                    self.phase = PairingPhase::Ended;
                    PairingAction::Stop { notice: PairingNotice::Expired }
                } else {
                    self.phase = PairingPhase::Asking;
                    PairingAction::Ask { question: pairing_question(&self.ticket) }
                }
            },
            (PairingPhase::Asking, PairingEvent::Status { claimed }) => {
                if claimed {
                    self.phase = PairingPhase::Ended;
                    PairingAction::Stop { notice: PairingNotice::Completed }
                } else {
                    self.phase = PairingPhase::CheckingTime;
                    let remark = if self.verbose {
                        Some(PairingNotice::NotYetClaimed)
                    } else {
                        None
                    };
                    PairingAction::Sleep { remark }
                }
            },
            (PairingPhase::Asking, PairingEvent::Failed(error)) => {
                self.phase = PairingPhase::Ended;
                PairingAction::Stop { notice: PairingNotice::CheckFailed(error) }
            },
            _ => PairingAction::Nothing,
        }
    }
}

/// Where the watch over a pairing comes by a sequence of events, and what it
/// does on each.
pub open spec fn pairing_run(events: Seq<PairingEvent>, ticket: PairingTicket, verbose: bool) -> (
    PairingPhase,
    Seq<PairingAction>,
)
    decreases events.len(),
{
    if events.len() == 0 {
        (PairingPhase::CheckingTime, Seq::empty())
    } else {
        let before = pairing_run(events.drop_last(), ticket, verbose);
        let last = pairing_next(before.0, events.last(), ticket, verbose);
        (last.0, before.1.push(last.1))
    }
}

proof fn lemma_pairing_run(events: Seq<PairingEvent>, ticket: PairingTicket, verbose: bool)
    ensures
        pairing_run(events, ticket, verbose).1.len() == events.len(),
        forall|i: int|
            0 <= i < events.len() && (#[trigger] pairing_run(events, ticket, verbose).1[i]) is Stop
                ==> pairing_run(events, ticket, verbose).0 == PairingPhase::Ended,
    decreases events.len(),
{
    if events.len() > 0 {
        let init = events.drop_last();
        lemma_pairing_run(init, ticket, verbose);
        assert forall|i: int|
            0 <= i < events.len() && (#[trigger] pairing_run(events, ticket, verbose).1[i]) is Stop implies pairing_run(
            events,
            ticket,
            verbose,
        ).0 == PairingPhase::Ended by {
            if i < init.len() {
                assert(pairing_run(init, ticket, verbose).1[i] is Stop);
            }
        }
    }
}

/// The backend is asked only while the code has not expired, and only for that
/// code; and after the watch has stopped it is not asked again.
pub proof fn law_asked_only_before_expiry(
    events: Seq<PairingEvent>,
    ticket: PairingTicket,
    verbose: bool,
    i: int,
)
    requires
        0 <= i < events.len(),
        pairing_run(events, ticket, verbose).1[i] is Ask,
    ensures
        events[i] matches PairingEvent::Time { now } && now < ticket.expires_at,
        pairing_run(events, ticket, verbose).1[i] == (PairingAction::Ask {
            question: question_for(ticket),
        }),
        forall|j: int|
            0 <= j < i ==> !((#[trigger] pairing_run(events, ticket, verbose).1[j]) is Stop),
    decreases events.len(),
{
    let init = events.drop_last();
    lemma_pairing_run(init, ticket, verbose);
    if i < init.len() {
        assert(pairing_run(events, ticket, verbose).1[i] == pairing_run(
            init,
            ticket,
            verbose,
        ).1[i]);
        law_asked_only_before_expiry(init, ticket, verbose, i);
        assert(events[i] == init[i]);
        assert forall|j: int| 0 <= j < i implies !((#[trigger] pairing_run(
            events,
            ticket,
            verbose,
        ).1[j]) is Stop) by {
            assert(!(pairing_run(init, ticket, verbose).1[j] is Stop));
        }
    } else {
        assert forall|j: int| 0 <= j < i implies !((#[trigger] pairing_run(
            events,
            ticket,
            verbose,
        ).1[j]) is Stop) by {
            if pairing_run(events, ticket, verbose).1[j] is Stop {
                assert(pairing_run(init, ticket, verbose).1[j] is Stop);
            }
        }
    }
}

/// The watch stops when the code has expired or was claimed, or when the backend
/// cannot be asked, and for nothing else: a code that is not claimed yet is
/// watched on.
pub proof fn law_watch_stops_for_these(
    phase: PairingPhase,
    event: PairingEvent,
    ticket: PairingTicket,
    verbose: bool,
)
    ensures
        ({
            let next = pairing_next(phase, event, ticket, verbose);
            &&& next.1 is Stop <==> match (phase, event) {
                (PairingPhase::CheckingTime, PairingEvent::Time { now }) => now >= ticket.expires_at,
                (PairingPhase::Asking, PairingEvent::Status { claimed }) => claimed,
                (PairingPhase::Asking, PairingEvent::Failed(_)) => true,
                _ => false,
            }
            &&& next.0 == PairingPhase::Ended <==> phase == PairingPhase::Ended || next.1 is Stop
        }),
{
}

/// The watch stops with the notice that fits: completed exactly when the backend
/// says that the code was claimed, expired exactly when the clock has reached the
/// time of expiry, and a failed check exactly when the backend could not be
/// asked, with its words.
pub proof fn law_watch_stops_with_the_right_notice(
    phase: PairingPhase,
    event: PairingEvent,
    ticket: PairingTicket,
    verbose: bool,
    notice: PairingNotice,
)
    ensures
        pairing_next(phase, event, ticket, verbose).1 == (PairingAction::Stop { notice }) <==> match notice {
            PairingNotice::Completed => phase == PairingPhase::Asking && event == (
            PairingEvent::Status { claimed: true }),
            PairingNotice::Expired => {
                &&& phase == PairingPhase::CheckingTime
                &&& event matches PairingEvent::Time { now }
                &&& now >= ticket.expires_at
            },
            PairingNotice::CheckFailed(error) => phase == PairingPhase::Asking && event
                == PairingEvent::Failed(error),
            PairingNotice::NotYetClaimed => false,
        },
{
}

/// The backend is asked exactly when the clock was looked at and the code has not
/// expired: by the manual code of the ticket, and by nothing else.
pub proof fn law_watch_asks_for_its_ticket(
    phase: PairingPhase,
    event: PairingEvent,
    ticket: PairingTicket,
    verbose: bool,
    question: PairingQuestion,
)
    ensures
        pairing_next(phase, event, ticket, verbose).1 == (PairingAction::Ask { question }) <==> {
            &&& phase == PairingPhase::CheckingTime
            &&& event matches PairingEvent::Time { now }
            &&& now < ticket.expires_at
            &&& question.pairing_code is None
            &&& question.manual_pairing_code == Some(ticket.manual_code)
        },
{
}

/// The watch sleeps exactly when the backend says that the code was not claimed,
/// and remarks on it exactly when it is to be verbose.
pub proof fn law_watch_sleeps_on_unclaimed(
    phase: PairingPhase,
    event: PairingEvent,
    ticket: PairingTicket,
    verbose: bool,
    remark: Option<PairingNotice>,
)
    ensures
        pairing_next(phase, event, ticket, verbose).1 == (PairingAction::Sleep { remark }) <==> {
            &&& phase == PairingPhase::Asking
            &&& event == (PairingEvent::Status { claimed: false })
            &&& verbose ==> remark == Some(PairingNotice::NotYetClaimed)
            &&& !verbose ==> remark is None
        },
{
}

/// Where the watch is after an action: after a question it waits for the answer,
/// after a sleep it looks at the clock, after a stop it is over; and an event that
/// does not belong leaves it where it was.
pub proof fn law_watch_is_at_what_it_does(
    phase: PairingPhase,
    event: PairingEvent,
    ticket: PairingTicket,
    verbose: bool,
)
    ensures
        ({
            let (after, action) = pairing_next(phase, event, ticket, verbose);
            after == match action {
                PairingAction::Ask { .. } => PairingPhase::Asking,
                PairingAction::Sleep { .. } => PairingPhase::CheckingTime,
                PairingAction::Stop { .. } => PairingPhase::Ended,
                PairingAction::Nothing => phase,
            }
        }),
{
}

/// The Unix time is a signed 64-bit number that counts the seconds since the
/// epoch, modulo two to the power of 64; before the epoch it stands still.
pub proof fn law_unix_time_counts_seconds(elapsed: Option<u64>)
    ensures
        i64::MIN <= unix_time(elapsed) <= i64::MAX,
        elapsed matches Some(seconds) ==> (unix_time(elapsed) - seconds) % 0x1_0000_0000_0000_0000
            == 0,
        elapsed is None ==> unix_time(elapsed) == 0,
{
}

/// A check that failed is told with the words of its error.
pub proof fn law_failed_check_is_told(error: String)
    ensures
        pairing_notice_text(PairingNotice::CheckFailed(error)) == "Pairing status check failed: "@
            + error@,
{
}

/// The relay asks for a pairing every three seconds.
pub proof fn law_pairing_interval()
    ensures
        PAIRING_POLL_SECS == 3,
{
}

} // verus!
