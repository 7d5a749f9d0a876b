//! The poll loop as a state machine.
//!
//! The loop fetches the latest block once, then at every tick of a timer
//! fetches it again and announces it when its hash differs from the one seen
//! last. The machine decides; the caller acts. The caller asks the machine
//! what to do ([`Watcher::action`]), does it, and reports what happened
//! ([`Watcher::step`]), over and over, until the machine says to stop.

use crate::block::{block_views, blocks_address, blocks_url, latest_block, Block, BlockView};
use crate::detector::PollState;
use crate::failure::{no_blocks, zero_period, ErrorKind, Failure, FailureView};
use crate::notification::{announcement, block_found, Notification, NotificationView};
use vstd::prelude::*;

verus! {

/// Where the loop stands.
#[derive(Clone, Debug, PartialEq, Eq)]
pub enum Phase {
    /// The first fetch is under way.
    Seeding,
    /// The timer runs.
    Waiting,
    /// A fetch after a tick is under way.
    Checking,
    /// A new block was seen at this height and its notification is under way.
    Notifying { height: u32 },
    /// The loop has ended with this failure. It never ends otherwise.
    Stopped { failure: Failure },
}

/// A phase as a mathematical value.
pub enum PhaseView {
    Seeding,
    Waiting,
    Checking,
    Notifying { height: u32 },
    Stopped { failure: FailureView },
}

impl View for Phase {
    type V = PhaseView;

    open spec fn view(&self) -> PhaseView {
        match *self {
            Phase::Seeding => PhaseView::Seeding,
            Phase::Waiting => PhaseView::Waiting,
            Phase::Checking => PhaseView::Checking,
            Phase::Notifying { height } => PhaseView::Notifying { height },
            Phase::Stopped { failure } => PhaseView::Stopped { failure: failure@ },
        }
    }
}

/// What the caller reports to the machine.
#[derive(Clone, Debug, PartialEq, Eq)]
pub enum Event {
    /// The timer fired.
    Ticked,
    /// The pool answered with these blocks, newest first.
    Fetched(Vec<Block>),
    /// The notification was shown.
    Delivered,
    /// The fetch or the notification failed.
    Failed(Failure),
}

/// An event as a mathematical value.
pub enum EventView {
    Ticked,
    Fetched(Seq<BlockView>),
    Delivered,
    Failed(FailureView),
}

impl View for Event {
    type V = EventView;

    open spec fn view(&self) -> EventView {
        match *self {
            Event::Ticked => EventView::Ticked,
            Event::Fetched(blocks) => EventView::Fetched(block_views(blocks@)),
            Event::Delivered => EventView::Delivered,
            Event::Failed(failure) => EventView::Failed(failure@),
        }
    }
}

/// What the machine asks the caller to do.
#[derive(Clone, Debug, PartialEq, Eq)]
pub enum Action {
    /// Ask the pool at this address for its blocks.
    Fetch { url: String },
    /// Wait for the next tick of a timer with this period.
    Wait { seconds: u64 },
    /// Show this notification.
    Notify(Notification),
    /// Give up and hand this failure on.
    Stop(Failure),
}

/// An action as a mathematical value.
pub enum ActionView {
    Fetch { url: Seq<char> },
    Wait { seconds: u64 },
    Notify(NotificationView),
    Stop(FailureView),
}

impl View for Action {
    type V = ActionView;

    open spec fn view(&self) -> ActionView {
        match *self {
            Action::Fetch { url } => ActionView::Fetch { url: url@ },
            Action::Wait { seconds } => ActionView::Wait { seconds },
            Action::Notify(notification) => ActionView::Notify(notification@),
            Action::Stop(failure) => ActionView::Stop(failure@),
        }
    }
}

/// The machine's answer to an event: a line to print first, if any, and
/// what to do next.
#[derive(Clone, Debug, PartialEq, Eq)]
pub struct Reaction {
    pub line: Option<String>,
    pub action: Action,
}

/// A reaction as a mathematical value.
pub struct ReactionView {
    pub line: Option<Seq<char>>,
    pub action: ActionView,
}

impl View for Reaction {
    type V = ReactionView;

    open spec fn view(&self) -> ReactionView {
        ReactionView {
            line: match self.line {
                Some(line) => Some(line@),
                None => None,
            },
            action: self.action@,
        }
    }
}

/// A poll period in seconds, which is never zero.
#[derive(Debug)]
pub struct Period {
    seconds: u64,
}

impl View for Period {
    type V = u64;

    closed spec fn view(&self) -> u64 {
        self.seconds
    }
}

impl Period {
    #[verifier::type_invariant]
    spec fn positive(self) -> bool {
        self.seconds > 0
    }

    /// A period of so many seconds; a period of zero is refused.
    pub fn new(seconds: u64) -> (r: Result<Period, Failure>)
        ensures
            match r {
                Ok(period) => seconds > 0 && period@ == seconds,
                Err(failure) => seconds == 0 && failure@ == zero_period(),
            },
    {
        if seconds == 0 {
            Err(Failure::new(ErrorKind::Configuration, "period must not be 0"))
        } else {
            Ok(Period { seconds })
        }
    }

    /// The seconds of the period.
    pub fn seconds(&self) -> (seconds: u64)
        ensures
            seconds == self@,
            seconds > 0,
    {
        proof {
            use_type_invariant(self);
        }
        self.seconds
    }
}

/// The poll loop: which pool it watches, how often, where it stands, and
/// what it remembers of the block seen last.
#[derive(Debug)]
pub struct Watcher {
    mini: bool,
    period: Period,
    phase: Phase,
    state: PollState,
}

/// The poll loop as a mathematical value. The hash seen last is empty until
/// the first fetch has come back.
pub struct WatcherView {
    pub mini: bool,
    pub period: u64,
    pub phase: PhaseView,
    pub last_block_hash: Seq<char>,
}

/// The line printed when a check begins.
pub open spec fn fetching_line() -> Seq<char> {
    "Fetching P2Pool block information..."@
}

/// The line printed when a notification has been shown.
pub open spec fn notified_line() -> Seq<char> {
    "Block found, notification sent!"@
}

impl WatcherView {
    /// The loop at its start.
    pub open spec fn initial(mini: bool, period: u64) -> WatcherView {
        WatcherView { mini, period, phase: PhaseView::Seeding, last_block_hash: Seq::empty() }
    }

    /// The loop in another phase.
    pub open spec fn moved(self, phase: PhaseView) -> WatcherView {
        WatcherView { phase, ..self }
    }

    /// The loop in another phase, with another block seen last.
    pub open spec fn seen(self, hash: Seq<char>, phase: PhaseView) -> WatcherView {
        WatcherView { phase, last_block_hash: hash, ..self }
    }

    /// The loop after an event.
    ///
    /// A first fetch that comes back makes its newest block the one seen
    /// last, and the timer starts. A tick starts a check. A check that comes
    /// back with the hash seen last goes back to waiting; with another hash,
    /// that hash becomes the one seen last and the block is announced. A
    /// notification that was shown goes back to waiting. A reply without
    /// blocks, a failed fetch and a failed notification end the loop. An
    /// event that the phase does not await changes nothing.
    pub open spec fn step(self, event: EventView) -> WatcherView {
        match self.phase {
            PhaseView::Seeding => match event {
                EventView::Fetched(blocks) => if blocks.len() == 0 {
                    self.moved(PhaseView::Stopped { failure: no_blocks() })
                } else {
                    self.seen(blocks[0].hash, PhaseView::Waiting)
                },
                EventView::Failed(failure) => self.moved(PhaseView::Stopped { failure }),
                _ => self,
            },
            PhaseView::Waiting => match event {
                EventView::Ticked => self.moved(PhaseView::Checking),
                _ => self,
            },
            PhaseView::Checking => match event {
                EventView::Fetched(blocks) => if blocks.len() == 0 {
                    self.moved(PhaseView::Stopped { failure: no_blocks() })
                } else if blocks[0].hash == self.last_block_hash {
                    self.moved(PhaseView::Waiting)
                } else {
                    self.seen(blocks[0].hash, PhaseView::Notifying { height: blocks[0].height })
                },
                EventView::Failed(failure) => self.moved(PhaseView::Stopped { failure }),
                _ => self,
            },
            PhaseView::Notifying { height } => match event {
                EventView::Delivered => self.moved(PhaseView::Waiting),
                EventView::Failed(failure) => self.moved(PhaseView::Stopped { failure }),
                _ => self,
            },
            PhaseView::Stopped { failure } => self,
        }
    }

    /// The line to print on an event, before anything else is done.
    pub open spec fn line(self, event: EventView) -> Option<Seq<char>> {
        match self.phase {
            PhaseView::Waiting => match event {
                EventView::Ticked => Some(fetching_line()),
                _ => None,
            },
            PhaseView::Notifying { height } => match event {
                EventView::Delivered => Some(notified_line()),
                _ => None,
            },
            _ => None,
        }
    }

    /// What the loop awaits in its phase.
    pub open spec fn pending(self) -> ActionView {
        match self.phase {
            PhaseView::Seeding => ActionView::Fetch { url: blocks_address(self.mini) },
            PhaseView::Waiting => ActionView::Wait { seconds: self.period },
            PhaseView::Checking => ActionView::Fetch { url: blocks_address(self.mini) },
            PhaseView::Notifying { height } => ActionView::Notify(announcement(self.mini, height)),
            PhaseView::Stopped { failure } => ActionView::Stop(failure),
        }
    }

    /// The answer to an event: the line to print, and what the loop awaits
    /// after the event.
    pub open spec fn react(self, event: EventView) -> ReactionView {
        ReactionView { line: self.line(event), action: self.step(event).pending() }
    }

    /// The loop after a tick that the pool answers with these blocks, before
    /// anything is shown.
    pub open spec fn checked(self, blocks: Seq<BlockView>) -> WatcherView {
        self.step(EventView::Ticked).step(EventView::Fetched(blocks))
    }

    /// The notification that the loop asks for after a tick that the pool
    /// answers with these blocks, if it asks for one.
    pub open spec fn announced(self, blocks: Seq<BlockView>) -> Option<NotificationView> {
        match self.checked(blocks).pending() {
            ActionView::Notify(notification) => Some(notification),
            _ => None,
        }
    }

    /// The loop after one round: a tick, the pool's answer, and the showing
    /// of the notification where one is asked for.
    pub open spec fn round(self, blocks: Seq<BlockView>) -> WatcherView {
        let checked = self.checked(blocks);
        if checked.phase is Notifying {
            checked.step(EventView::Delivered)
        } else {
            checked
        }
    }

    /// The loop after one round for each of these answers, in their order.
    pub open spec fn rounds(self, replies: Seq<Seq<BlockView>>) -> WatcherView
        decreases replies.len(),
    {
        if replies.len() == 0 {
            self
        } else {
            self.rounds(replies.drop_last()).round(replies.last())
        }
    }
}

impl View for Watcher {
    type V = WatcherView;

    closed spec fn view(&self) -> WatcherView {
        WatcherView {
            mini: self.mini,
            period: self.period@,
            phase: self.phase@,
            last_block_hash: self.state@,
        }
    }
}

impl Watcher {
    /// Sets a loop up for the main pool or its mini variant, with a poll
    /// period in seconds. A period of zero is refused, and nothing has been
    /// asked of anyone by then.
    pub fn start(mini: bool, period: u64) -> (r: Result<Watcher, Failure>)
        ensures
            match r {
                Ok(watcher) => period > 0 && watcher@ == WatcherView::initial(mini, period),
                Err(failure) => period == 0 && failure@ == zero_period(),
            },
    {
        match Period::new(period) {
            Err(failure) => Err(failure),
            Ok(period) => Ok(
                Watcher {
                    mini,
                    period,
                    phase: Phase::Seeding,
                    state: PollState { last_block_hash: String::new() },
                },
            ),
        }
    }

    /// Whether the mini variant of the pool is watched.
    pub fn mini(&self) -> (mini: bool)
        ensures
            mini == self@.mini,
    {
        self.mini
    }

    /// The poll period in seconds, which is never zero.
    pub fn period(&self) -> (period: u64)
        ensures
            period == self@.period,
            period > 0,
    {
        self.period.seconds()
    }

    /// Where the loop stands.
    pub fn phase(&self) -> (phase: &Phase)
        ensures
            phase@ == self@.phase,
    {
        &self.phase
    }

    /// The hash of the block seen last; empty until the first fetch has
    /// come back.
    pub fn last_block_hash(&self) -> (hash: &str)
        ensures
            hash@ == self@.last_block_hash,
    {
        self.state.last_block_hash.as_str()
    }

    /// What the caller is to do now. A wait is never for zero seconds.
    pub fn action(&self) -> (action: Action)
        ensures
            action@ == self@.pending(),
            self@.period > 0,
    {
        proof {
            use_type_invariant(&self.period);
        }
        match &self.phase {
            Phase::Seeding => Action::Fetch { url: blocks_url(self.mini) },
            Phase::Waiting => Action::Wait { seconds: self.period.seconds() },
            Phase::Checking => Action::Fetch { url: blocks_url(self.mini) },
            Phase::Notifying { height } => Action::Notify(block_found(self.mini, *height)),
            Phase::Stopped { failure } => Action::Stop(failure.duplicate()),
        }
    }

    /// Takes an event in, and answers with the line to print and what to do
    /// next.
    pub fn step(&mut self, event: Event) -> (reaction: Reaction)
        ensures
            final(self)@ == old(self)@.step(event@),
            reaction@ == old(self)@.react(event@),
    {
        let mut line: Option<String> = None;
        match event {
            Event::Ticked => {
                if matches!(self.phase, Phase::Waiting) {
                    self.phase = Phase::Checking;
                    line = Some("Fetching P2Pool block information...".to_owned());
                }
            },
            Event::Fetched(blocks) => {
                let seeding = matches!(self.phase, Phase::Seeding);
                if seeding || matches!(self.phase, Phase::Checking) {
                    match latest_block(&blocks) {
                        Err(failure) => {
                            self.phase = Phase::Stopped { failure };
                        },
                        Ok(block) => {
                            if seeding {
                                self.state = PollState::seed(&block);
                                self.phase = Phase::Waiting;
                            } else if self.state.observe(&block) {
                                self.phase = Phase::Notifying { height: block.height };
                            } else {
                                self.phase = Phase::Waiting;
                            }
                        },
                    }
                }
            },
            Event::Delivered => {
                if matches!(self.phase, Phase::Notifying { .. }) {
                    self.phase = Phase::Waiting;
                    line = Some("Block found, notification sent!".to_owned());
                }
            },
            Event::Failed(failure) => {
                if matches!(self.phase, Phase::Seeding | Phase::Checking | Phase::Notifying { .. }) {
                    self.phase = Phase::Stopped { failure };
                }
            },
        }
        Reaction { line, action: self.action() }
    }
}

/// The loop ends on a failure only, and stays ended. A loop that is not
/// waiting stops when its fetch or its notification is reported as failed,
/// with that failure, or when a reply holds no block; nothing else stops it,
/// and no event brings a stopped loop back.
pub proof fn lemma_stops_on_failure_only(w: WatcherView, event: EventView)
    ensures
        w.phase is Stopped ==> w.step(event) == w,
        !(w.phase is Stopped) && w.step(event).phase is Stopped ==> {
            &&& !(w.phase is Waiting)
            &&& match event {
                EventView::Failed(failure) => w.step(event).phase == (PhaseView::Stopped {
                    failure,
                }),
                EventView::Fetched(blocks) => {
                    &&& blocks.len() == 0
                    &&& w.step(event).phase == (PhaseView::Stopped { failure: no_blocks() })
                },
                _ => false,
            }
        },
{
}

/// The hash seen last changes only when a fetch comes back with a block of
/// another hash, and it is that block's hash from then on. Nothing else of
/// the loop ever changes but its phase.
pub proof fn lemma_hash_changes_with_a_new_block_only(w: WatcherView, event: EventView)
    ensures
        w.step(event).mini == w.mini,
        w.step(event).period == w.period,
        w.step(event).last_block_hash != w.last_block_hash ==> {
            &&& w.phase is Seeding || w.phase is Checking
            &&& match event {
                EventView::Fetched(blocks) => {
                    &&& blocks.len() > 0
                    &&& blocks[0].hash != w.last_block_hash
                    &&& w.step(event).last_block_hash == blocks[0].hash
                },
                _ => false,
            }
        },
{
}

/// The loop after its first fetch, answered with the first of these replies,
/// and one round for each reply after the first.
pub open spec fn watched(mini: bool, period: u64, replies: Seq<Seq<BlockView>>) -> WatcherView
    recommends
        replies.len() > 0,
{
    WatcherView::initial(mini, period).step(EventView::Fetched(replies[0])).rounds(
        replies.subrange(1, replies.len() as int),
    )
}

/// Rounds on replies that all hold a block leave the loop waiting, with the
/// newest block of the last reply as the one seen last, and with its pool
/// and its period as they were.
pub proof fn lemma_rounds_keep_waiting(w: WatcherView, replies: Seq<Seq<BlockView>>)
    requires
        w.phase is Waiting,
        forall|j: int| 0 <= j < replies.len() ==> (#[trigger] replies[j]).len() > 0,
    ensures
        w.rounds(replies).phase is Waiting,
        w.rounds(replies).mini == w.mini,
        w.rounds(replies).period == w.period,
        w.rounds(replies).last_block_hash == if replies.len() == 0 {
            w.last_block_hash
        } else {
            replies.last()[0].hash
        },
    decreases replies.len(),
{
    if replies.len() > 0 {
        lemma_rounds_keep_waiting(w, replies.drop_last());
    }
}

/// A notification is asked for exactly when the hash changes, and never on a
/// repeat.
///
/// Let a loop be fed a row of replies that all hold a block: the first
/// answers the first fetch, each later one answers a tick. Then for every
/// reply after the first, the loop asks for a notification if and only if the
/// hash of its newest block differs from that of the reply before it; the
/// notification is the one for that block's height; and after all the
/// replies the loop is waiting, with the last hash as the one seen last.
pub proof fn lemma_notifies_exactly_on_change(
    mini: bool,
    period: u64,
    replies: Seq<Seq<BlockView>>,
    i: int,
)
    requires
        forall|j: int| 0 <= j < replies.len() ==> (#[trigger] replies[j]).len() > 0,
        1 <= i < replies.len(),
    ensures
        watched(mini, period, replies.take(i)).announced(replies[i]) == if replies[i][0].hash
            != replies[i - 1][0].hash {
            Some(announcement(mini, replies[i][0].height))
        } else {
            None
        },
        watched(mini, period, replies).phase is Waiting,
        watched(mini, period, replies).last_block_hash == replies.last()[0].hash,
{
    let seeded = WatcherView::initial(mini, period).step(EventView::Fetched(replies[0]));
    let before = replies.take(i);
    let earlier = before.subrange(1, before.len() as int);
    let later = replies.subrange(1, replies.len() as int);
    lemma_rounds_keep_waiting(seeded, earlier);
    lemma_rounds_keep_waiting(seeded, later);
}

} // verus!
