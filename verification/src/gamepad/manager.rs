//! Which virtual controllers exist, and what is handed to the driver for them.

use std::collections::HashSet;
use vstd::prelude::*;

use super::types::{GamepadState, RumbleEvent};
use super::ControllerId;
use crate::text::push_decimal;

verus! {

/// Errors of the gamepad manager.
#[derive(Debug, Clone)]
pub enum GamepadError {
    /// The driver is missing or cannot be reached.
    ConnectionFailed(String),
    /// A controller could not be made.
    CreateFailed(String),
    /// There is no such controller.
    ControllerNotFound(ControllerId),
    /// The driver refused an update.
    UpdateFailed(String),
    /// The manager is closed.
    Shutdown,
}

/// What a gamepad error says.
pub enum GamepadErrorView {
    ConnectionFailed(Seq<char>),
    CreateFailed(Seq<char>),
    ControllerNotFound(ControllerId),
    UpdateFailed(Seq<char>),
    Shutdown,
}

impl View for GamepadError {
    type V = GamepadErrorView;

    open spec fn view(&self) -> GamepadErrorView {
        match *self {
            GamepadError::ConnectionFailed(msg) => GamepadErrorView::ConnectionFailed(msg@),
            GamepadError::CreateFailed(msg) => GamepadErrorView::CreateFailed(msg@),
            GamepadError::ControllerNotFound(id) => GamepadErrorView::ControllerNotFound(id),
            GamepadError::UpdateFailed(msg) => GamepadErrorView::UpdateFailed(msg@),
            GamepadError::Shutdown => GamepadErrorView::Shutdown,
        }
    }
}

impl GamepadError {
    /// The message of the error.
    pub open spec fn message(self) -> Seq<char> {
        match self@ {
            GamepadErrorView::ConnectionFailed(msg) => "Connection failed: "@ + msg,
            GamepadErrorView::CreateFailed(msg) => "Create failed: "@ + msg,
            GamepadErrorView::ControllerNotFound(id) => "Controller "@ + crate::text::decimal(
                id as nat,
            ) + " not found"@,
            GamepadErrorView::UpdateFailed(msg) => "Update failed: "@ + msg,
            GamepadErrorView::Shutdown => "Manager is shut down"@,
        }
    }

    /// The message of the error as a string.
    pub fn to_string(&self) -> (s: String)
        ensures
            s@ == self.message(),
            match *self {
                GamepadError::ConnectionFailed(msg) => s@ == "Connection failed: "@ + msg@,
                GamepadError::CreateFailed(msg) => s@ == "Create failed: "@ + msg@,
                GamepadError::ControllerNotFound(id) => s@ == "Controller "@
                    + crate::text::decimal(id as nat) + " not found"@,
                GamepadError::UpdateFailed(msg) => s@ == "Update failed: "@ + msg@,
                GamepadError::Shutdown => s@ == "Manager is shut down"@,
            },
    {
        match self {
            GamepadError::ConnectionFailed(msg) => joined("Connection failed: ", msg.as_str()),
            GamepadError::CreateFailed(msg) => joined("Create failed: ", msg.as_str()),
            GamepadError::ControllerNotFound(id) => {
                let mut s = "Controller ".to_owned();
                push_decimal(&mut s, *id as u64);
                s.append(" not found");
                s
            },
            GamepadError::UpdateFailed(msg) => joined("Update failed: ", msg.as_str()),
            GamepadError::Shutdown => "Manager is shut down".to_owned(),
        }
    }
}

/// Two texts, one behind the other.
fn joined(first: &str, second: &str) -> (s: String)
    ensures
        s@ == first@ + second@,
{
    let mut s = first.to_owned();
    s.append(second);
    s
}

/// By what a controller makes itself known on the bus.
#[derive(Debug, Clone, Copy, PartialEq, Eq, Structural)]
pub struct TargetId {
    pub vendor: u16,
    pub product: u16,
}

/// The identity of every controller: a wired Xbox 360 pad of Microsoft.
pub fn default_target_id() -> (id: TargetId)
    ensures
        id == (TargetId { vendor: 0x045E, product: 0x028E }),
{
    TargetId { vendor: 0x045E, product: 0x028E }
}

/// A report as the driver takes it.
#[derive(Debug, Clone, Copy, PartialEq, Eq, Structural)]
pub struct XGamepad {
    pub buttons: u16,
    pub left_trigger: u8,
    pub right_trigger: u8,
    pub thumb_lx: i16,
    pub thumb_ly: i16,
    pub thumb_rx: i16,
    pub thumb_ry: i16,
}

/// The report of a pad's state: the same values, field by field.
pub open spec fn report(state: GamepadState) -> XGamepad {
    XGamepad {
        buttons: state.buttons,
        left_trigger: state.left_trigger,
        right_trigger: state.right_trigger,
        thumb_lx: state.thumb_lx,
        thumb_ly: state.thumb_ly,
        thumb_rx: state.thumb_rx,
        thumb_ry: state.thumb_ry,
    }
}

/// Nothing of a pad's state is lost in its report.
pub proof fn lemma_report_lossless(a: GamepadState, b: GamepadState)
    requires
        report(a) == report(b),
    ensures
        a == b,
{
}

/// A report has each field of the pad's state as its own of the same name.
pub proof fn lemma_report_fields(state: GamepadState)
    ensures
        report(state).buttons == state.buttons,
        report(state).left_trigger == state.left_trigger,
        report(state).right_trigger == state.right_trigger,
        report(state).thumb_lx == state.thumb_lx,
        report(state).thumb_ly == state.thumb_ly,
        report(state).thumb_rx == state.thumb_rx,
        report(state).thumb_ry == state.thumb_ry,
{
}

/// The report of a pad's state.
pub fn to_xgamepad(state: &GamepadState) -> (x: XGamepad)
    ensures
        x == report(*state),
        x.buttons == state.buttons,
        x.left_trigger == state.left_trigger,
        x.right_trigger == state.right_trigger,
        x.thumb_lx == state.thumb_lx,
        x.thumb_ly == state.thumb_ly,
        x.thumb_rx == state.thumb_rx,
        x.thumb_ry == state.thumb_ry,
{
    XGamepad {
        buttons: state.buttons,
        left_trigger: state.left_trigger,
        right_trigger: state.right_trigger,
        thumb_lx: state.thumb_lx,
        thumb_ly: state.thumb_ly,
        thumb_rx: state.thumb_rx,
        thumb_ry: state.thumb_ry,
    }
}

/// The event that a notification of the driver stands for.
pub fn rumble_of(large_motor: u8, small_motor: u8) -> (event: RumbleEvent)
    ensures
        event == (RumbleEvent { large_motor, small_motor }),
{
    RumbleEvent { large_motor, small_motor }
}

/// How the driver's work on a controller ended.
#[derive(Debug, Clone)]
pub enum DriverOutcome {
    /// All steps succeeded.
    Done,
    /// The driver could not be reached.
    ConnectFailed(String),
    /// The controller could not be plugged in.
    PluginFailed(String),
    /// The controller did not become ready.
    WaitReadyFailed(String),
    /// The controller's notifications could not be had.
    NotificationFailed(String),
    /// The report could not be delivered.
    UpdateFailed(String),
    /// The task that was to do the work was lost.
    TaskLost,
}

impl DriverOutcome {
    /// The error that an outcome stands for, if it is one.
    pub open spec fn error(self) -> Option<GamepadErrorView> {
        match self {
            DriverOutcome::Done => None,
            DriverOutcome::ConnectFailed(e) => Some(GamepadErrorView::ConnectionFailed(e@)),
            DriverOutcome::PluginFailed(e) => Some(
                GamepadErrorView::CreateFailed("plugin: "@ + e@),
            ),
            DriverOutcome::WaitReadyFailed(e) => Some(
                GamepadErrorView::CreateFailed("wait_ready: "@ + e@),
            ),
            DriverOutcome::NotificationFailed(e) => Some(
                GamepadErrorView::CreateFailed("request_notification: "@ + e@),
            ),
            DriverOutcome::UpdateFailed(e) => Some(GamepadErrorView::UpdateFailed(e@)),
            DriverOutcome::TaskLost => Some(
                GamepadErrorView::ConnectionFailed("spawn_blocking join failed"@),
            ),
        }
    }

    /// The outcome as a result.
    pub fn result(&self) -> (r: Result<(), GamepadError>)
        ensures
            match self.error() {
                None => r is Ok,
                Some(e) => r matches Err(g) && g@ == e,
            },
            match *self {
                DriverOutcome::Done => r is Ok,
                DriverOutcome::ConnectFailed(e) => r matches Err(
                    GamepadError::ConnectionFailed(m),
                ) && m@ == e@,
                DriverOutcome::PluginFailed(e) => r matches Err(GamepadError::CreateFailed(m))
                    && m@ == "plugin: "@ + e@,
                DriverOutcome::WaitReadyFailed(e) => r matches Err(GamepadError::CreateFailed(m))
                    && m@ == "wait_ready: "@ + e@,
                DriverOutcome::NotificationFailed(e) => r matches Err(
                    GamepadError::CreateFailed(m),
                ) && m@ == "request_notification: "@ + e@,
                DriverOutcome::UpdateFailed(e) => r matches Err(GamepadError::UpdateFailed(m))
                    && m@ == e@,
                DriverOutcome::TaskLost => r matches Err(GamepadError::ConnectionFailed(m)) && m@
                    == "spawn_blocking join failed"@,
            },
    {
        match self {
            DriverOutcome::Done => Ok(()),
            DriverOutcome::ConnectFailed(e) => Err(GamepadError::ConnectionFailed(e.clone())),
            DriverOutcome::PluginFailed(e) => Err(
                GamepadError::CreateFailed(joined("plugin: ", e.as_str())),
            ),
            DriverOutcome::WaitReadyFailed(e) => Err(
                GamepadError::CreateFailed(joined("wait_ready: ", e.as_str())),
            ),
            DriverOutcome::NotificationFailed(e) => Err(
                GamepadError::CreateFailed(joined("request_notification: ", e.as_str())),
            ),
            DriverOutcome::UpdateFailed(e) => Err(GamepadError::UpdateFailed(e.clone())),
            DriverOutcome::TaskLost => Err(
                GamepadError::ConnectionFailed("spawn_blocking join failed".to_owned()),
            ),
        }
    }
}

/// Keeps account of the controllers that are plugged in.
pub struct GamepadManager {
    controllers: HashSet<ControllerId>,
    next_id: usize,
    closed: bool,
}

impl GamepadManager {
    /// The controllers that are plugged in.
    pub closed spec fn controllers(self) -> Set<ControllerId> {
        self.controllers@
    }

    /// The count from which the next controller takes its number.
    pub closed spec fn next_id(self) -> usize {
        self.next_id
    }

    /// Whether the manager was shut down.
    pub closed spec fn is_closed(self) -> bool {
        self.closed
    }

    /// Every controller has a number below the count, and the count has not outgrown the
    /// numbers.
    pub open spec fn numbered(self) -> bool {
        &&& self.next_id() <= u32::MAX
        &&& forall|c: ControllerId| #[trigger] self.controllers().contains(c) ==> c < self.next_id()
    }

    /// A manager without controllers, where the driver was reached; else the error.
    pub fn new(connected: &DriverOutcome) -> (r: Result<GamepadManager, GamepadError>)
        ensures
            match connected.error() {
                None => r matches Ok(m) && m.controllers() == Set::<ControllerId>::empty()
                    && m.next_id() == 1 && !m.is_closed() && m.numbered(),
                Some(e) => r matches Err(g) && g@ == e,
            },
    {
        match connected.result() {
            Ok(_) => Ok(GamepadManager { controllers: HashSet::new(), next_id: 1, closed: false }),
            Err(e) => Err(e),
        }
    }

    /// How many controllers are plugged in.
    pub fn controller_count(&self) -> (n: usize)
        ensures
            n == self.controllers().len(),
    {
        broadcast use vstd::std_specs::hash::group_hash_axioms;

        self.controllers.len()
    }

    /// Hands out the number of a new controller, which the driver is then to plug in.
    pub fn create_controller(&mut self) -> (r: Result<ControllerId, GamepadError>)
        ensures
            final(self).controllers() == old(self).controllers(),
            final(self).is_closed() == old(self).is_closed(),
            match r {
                Ok(id) => {
                    &&& !old(self).is_closed()
                    &&& id == old(self).next_id() as u32
                    &&& final(self).next_id() == if old(self).next_id() < usize::MAX {
                        (old(self).next_id() + 1) as usize
                    } else {
                        0
                    }
                    &&& old(self).numbered() ==> !old(self).controllers().contains(id)
                    &&& old(self).numbered() && old(self).next_id() < u32::MAX
                        ==> final(self).numbered()
                },
                Err(e) => old(self).is_closed() && e is Shutdown && e@ == GamepadErrorView::Shutdown
                    && final(self).next_id() == old(self).next_id(),
            },
    {
        if self.closed {
            return Err(GamepadError::Shutdown);
        }
        let id: ControllerId = self.next_id as ControllerId;
        self.next_id = self.next_id.wrapping_add(1);
        Ok(id)
    }

    /// Takes up a controller once the driver has plugged it in; else gives the error.
    pub fn controller_ready(&mut self, id: ControllerId, outcome: &DriverOutcome) -> (r: Result<
        (),
        GamepadError,
    >)
        ensures
            final(self).next_id() == old(self).next_id(),
            final(self).is_closed() == old(self).is_closed(),
            match outcome.error() {
                None => r is Ok && final(self).controllers() == old(self).controllers().insert(id),
                Some(e) => r matches Err(g) && g@ == e && final(self).controllers() == old(
                    self,
                ).controllers(),
            },
            old(self).numbered() && id < old(self).next_id() ==> final(self).numbered(),
            outcome is Done ==> r is Ok && final(self).controllers().contains(id),
            !(outcome is Done) ==> r is Err,
            forall|c: ControllerId|
                c != id ==> (#[trigger] final(self).controllers().contains(c) <==> old(
                    self,
                ).controllers().contains(c)),
    {
        broadcast use vstd::std_specs::hash::group_hash_axioms;

        match outcome.result() {
            Ok(_) => {
                self.controllers.insert(id);
                Ok(())
            },
            Err(e) => Err(e),
        }
    }

    /// The report that the driver is to deliver to a controller for a new state.
    pub fn update_state(&self, id: ControllerId, state: &GamepadState) -> (r: Result<
        XGamepad,
        GamepadError,
    >)
        ensures
            match r {
                Ok(x) => {
                    &&& !self.is_closed() && self.controllers().contains(id)
                    &&& x == report(*state)
                    &&& x.buttons == state.buttons
                    &&& x.left_trigger == state.left_trigger
                    &&& x.right_trigger == state.right_trigger
                    &&& x.thumb_lx == state.thumb_lx
                    &&& x.thumb_ly == state.thumb_ly
                    &&& x.thumb_rx == state.thumb_rx
                    &&& x.thumb_ry == state.thumb_ry
                },
                Err(e) => if self.is_closed() {
                    e is Shutdown && e@ == GamepadErrorView::Shutdown
                } else {
                    e == GamepadError::ControllerNotFound(id) &&
                    !self.controllers().contains(id) && e@ == GamepadErrorView::ControllerNotFound(
                        id,
                    )
                },
            },
    {
        broadcast use vstd::std_specs::hash::group_hash_axioms;

        if self.closed {
            return Err(GamepadError::Shutdown);
        }
        if !self.controllers.contains(&id) {
            return Err(GamepadError::ControllerNotFound(id));
        }
        Ok(to_xgamepad(state))
    }

    /// Gives a controller up, and says whether there was one for the driver to unplug.
    pub fn destroy_controller(&mut self, id: ControllerId) -> (there: bool)
        ensures
            there == old(self).controllers().contains(id),
            final(self).controllers() == old(self).controllers().remove(id),
            final(self).next_id() == old(self).next_id(),
            final(self).is_closed() == old(self).is_closed(),
            old(self).numbered() ==> final(self).numbered(),
    {
        broadcast use vstd::std_specs::hash::group_hash_axioms;

        let there = self.controllers.remove(&id);
        assert(self.controllers@ =~= old(self).controllers@.remove(id));
        assert forall|c: ControllerId| #[trigger] self.controllers().contains(c) implies old(
            self,
        ).controllers().contains(c) by {}
        there
    }

    /// Closes the manager and gives all controllers up: those that are returned, each once,
    /// the driver is to unplug. A second time there are none.
    pub fn shutdown(&mut self) -> (gone: Vec<ControllerId>)
        ensures
            final(self).is_closed(),
            final(self).controllers() == Set::<ControllerId>::empty(),
            final(self).next_id() == old(self).next_id(),
            gone@.no_duplicates(),
            gone@.to_set() == old(self).controllers(),
            old(self).controllers() == Set::<ControllerId>::empty() ==> gone@.len() == 0,
            old(self).numbered() ==> final(self).numbered(),
    {
        broadcast use vstd::std_specs::hash::group_hash_axioms;

        self.closed = true;
        let mut gone: Vec<ControllerId> = Vec::new();
        let ids = self.controllers.iter();
        let ghost refs = vstd::std_specs::iter::IteratorSpec::remaining(&ids);
        let ghost all = refs.unref();
        for id in it: ids
            invariant
                it.seq().unref() == all,
                gone@ =~= all.take(it.index()),
        {
            gone.push(*id);
        }
        assert(gone@ =~= all);
        assert forall|i: int, j: int| 0 <= i < all.len() && 0 <= j < all.len() && i != j implies
            all[i] != all[j] by {
            assert(refs[i] != refs[j]);
        }
        self.controllers.clear();
        proof {
            if old(self).controllers() == Set::<ControllerId>::empty() && gone@.len() > 0 {
                assert(gone@.to_set().contains(gone@[0]));
            }
        }
        gone
    }
}

} // verus!
