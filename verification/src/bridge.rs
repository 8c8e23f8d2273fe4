//! Scripting runtime bridge: the decision logic of the thread that runs the
//! embedded scripting engine.
//!
//! Every operation a script may call is a suspension point: it first performs
//! a cooperative-cancellation check against the side control queue, then
//! produces the command to place on the host-facing queue (or the addresses
//! and writes for a direct accessor read). The unverified boundary owns the
//! real channels and the script engine; it polls the control queue, hands the
//! polled message in, and sends whatever command comes back.

use vstd::prelude::*;

verus! {

use crate::config::{spec_to_key, Config};
use crate::accessors::{AController, AMyCharacter, FApp, Write32};
use crate::messages::{Command, Event, Status};

/// A message on the side control queue, from the outer driver to the script
/// thread.
#[derive(Debug, PartialEq, Eq)]
pub enum ControlMsg {
    /// Cancel the running script cooperatively.
    Stop,
    /// Replace the key bindings wholesale.
    Config(Config),
    /// Set the working directory used to resolve script module paths. Only
    /// legal between sessions.
    WorkingDir(String),
    /// Start a session: execute the given script source. Only legal between
    /// sessions.
    Start(String),
}

/// Why a bridge operation refused to run.
#[derive(Debug, Clone, Copy, PartialEq, Eq)]
pub enum IfaceError {
    /// Cooperative cancellation: the script must unwind cleanly.
    ExitPlease,
    /// A control message arrived that is only legal between sessions — a
    /// logic bug in the outer driver; the boundary fails fast on it.
    MisplacedControl,
    /// The script named a key the bindings do not know — a script bug; the
    /// call is aborted.
    UnknownKey,
}

/// Whether the cancellation check at the head of an operation lets the
/// operation proceed, given the state and the polled control message.
pub open spec fn syscall_ok(g: GameInterface, msg: Option<ControlMsg>) -> bool {
    &&& !g.should_exit
    &&& (match msg {
        None => true,
        Some(ControlMsg::Config(_)) => true,
        Some(_) => false,
    })
}

/// The bridge state after the cancellation check consumed `msg`.
pub open spec fn syscall_state(g: GameInterface, msg: Option<ControlMsg>) -> GameInterface {
    if g.should_exit {
        g
    } else {
        match msg {
            Some(ControlMsg::Stop) => GameInterface { should_exit: true, ..g },
            Some(ControlMsg::Config(c)) => GameInterface { config: c, ..g },
            _ => g,
        }
    }
}

/// The error the cancellation check raises when it refuses to proceed.
pub open spec fn syscall_err(g: GameInterface, msg: Option<ControlMsg>) -> IfaceError {
    if g.should_exit || msg == Some(ControlMsg::Stop) {
        IfaceError::ExitPlease
    } else {
        IfaceError::MisplacedControl
    }
}

/// The per-session state of the scripting interface: the keys currently held
/// down by synthetic input, the key bindings, and the cancellation flag.
pub struct GameInterface {
    /// Key codes currently held down, each at most once.
    pub pressed_keys: Vec<i32>,
    /// Key bindings of this session.
    pub config: Config,
    /// Whether cooperative cancellation has been requested.
    pub should_exit: bool,
}

impl GameInterface {
    /// The held-key tracking stores each key at most once: set semantics.
    pub open spec fn wf(self) -> bool {
        forall|i: int, j: int|
            0 <= i < j < self.pressed_keys@.len() ==> self.pressed_keys@[i]
                != self.pressed_keys@[j]
    }

    /// The set of currently held keys.
    pub open spec fn key_set(self) -> Set<i32> {
        self.pressed_keys@.to_set()
    }

    /// A fresh interface for a new session: nothing held, not cancelled.
    pub fn new(config: Config) -> (g: GameInterface)
        ensures
            g.wf(),
            g.pressed_keys@.len() == 0,
            g.config == config,
            !g.should_exit,
    {
        GameInterface { pressed_keys: Vec::new(), config, should_exit: false }
    }

    /// Whether cancellation has been requested; the boundary polls the
    /// control queue only when this is false, so a pending message is not
    /// consumed by an operation that will refuse anyway.
    pub fn cancelled(&self) -> (r: bool)
        ensures
            r == self.should_exit,
    {
        self.should_exit
    }

    /// The cooperative-cancellation check run at the head of every
    /// operation: consumes the polled control message, applies a `Config`
    /// in-place, turns `Stop` into a sticky cancellation, and refuses the
    /// messages that are only legal between sessions.
    pub fn syscall(&mut self, msg: Option<ControlMsg>) -> (r: Result<(), IfaceError>)
        ensures
            *final(self) == syscall_state(*old(self), msg),
            r is Ok <==> syscall_ok(*old(self), msg),
            r is Err ==> r == Err::<(), IfaceError>(syscall_err(*old(self), msg)),
    {
        if self.should_exit {
            return Err(IfaceError::ExitPlease);
        }
        match msg {
            None => Ok(()),
            Some(ControlMsg::Config(c)) => {
                self.config = c;
                Ok(())
            },
            Some(ControlMsg::Stop) => {
                self.should_exit = true;
                Err(IfaceError::ExitPlease)
            },
            Some(ControlMsg::WorkingDir(_)) => Err(IfaceError::MisplacedControl),
            Some(ControlMsg::Start(_)) => Err(IfaceError::MisplacedControl),
        }
    }

    /// Resolves a symbolic key name against this session's bindings.
    pub fn to_key(&self, key: &str) -> (r: Option<i32>)
        ensures
            r == spec_to_key(key@, self.config),
    {
        crate::config::to_key(key, &self.config)
    }

    /// Whether `k` is currently held.
    pub fn is_pressed(&self, k: i32) -> (r: bool)
        ensures
            r == self.key_set().contains(k),
    {
        let mut i: usize = 0;
        while i < self.pressed_keys.len()
            invariant
                i <= self.pressed_keys@.len(),
                forall|j: int| 0 <= j < i ==> self.pressed_keys@[j] != k,
            decreases self.pressed_keys@.len() - i,
        {
            if self.pressed_keys[i] == k {
                return true;
            }
            i += 1;
        }
        false
    }

    /// The `pressKey` operation: marks the bound key as held (set semantics —
    /// pressing an already-held key holds it once) and yields the key-down
    /// command to send.
    pub fn press_key(&mut self, key: &str, msg: Option<ControlMsg>) -> (r: Result<
        Command,
        IfaceError,
    >)
        requires
            old(self).wf(),
        ensures
            final(self).wf(),
            !syscall_ok(*old(self), msg) ==> ({
                &&& *final(self) == syscall_state(*old(self), msg)
                &&& r == Err::<Command, IfaceError>(syscall_err(*old(self), msg))
            }),
            syscall_ok(*old(self), msg) ==> (match spec_to_key(
                key@,
                syscall_state(*old(self), msg).config,
            ) {
                Some(k) => {
                    &&& r == Ok::<Command, IfaceError>(Command::KeyPress(k))
                    &&& final(self).key_set() == syscall_state(*old(self), msg).key_set().insert(k)
                    &&& final(self).config == syscall_state(*old(self), msg).config
                    &&& final(self).should_exit == syscall_state(*old(self), msg).should_exit
                },
                None => {
                    &&& r == Err::<Command, IfaceError>(IfaceError::UnknownKey)
                    &&& *final(self) == syscall_state(*old(self), msg)
                },
            }),
    {
        match self.syscall(msg) {
            Err(e) => Err(e),
            Ok(()) => match self.to_key(key) {
                None => Err(IfaceError::UnknownKey),
                Some(k) => {
                    if !self.is_pressed(k) {
                        let ghost pre = self.pressed_keys@;
                        self.pressed_keys.push(k);
                        proof {
                            pre.lemma_push_to_set_commute(k);
                        }
                    } else {
                        proof {
                            assert(self.key_set().insert(k) =~= self.key_set());
                        }
                    }
                    Ok(Command::KeyPress(k))
                },
            },
        }
    }

    /// The `releaseKey` operation: removes the bound key from the held set
    /// (releasing a key that was never pressed leaves the set as it was) and
    /// yields the key-up command to send.
    #[verifier::loop_isolation(false)]
    pub fn release_key(&mut self, key: &str, msg: Option<ControlMsg>) -> (r: Result<
        Command,
        IfaceError,
    >)
        requires
            old(self).wf(),
        ensures
            final(self).wf(),
            !syscall_ok(*old(self), msg) ==> ({
                &&& *final(self) == syscall_state(*old(self), msg)
                &&& r == Err::<Command, IfaceError>(syscall_err(*old(self), msg))
            }),
            syscall_ok(*old(self), msg) ==> (match spec_to_key(
                key@,
                syscall_state(*old(self), msg).config,
            ) {
                Some(k) => {
                    &&& r == Ok::<Command, IfaceError>(Command::KeyRelease(k))
                    &&& final(self).key_set() == syscall_state(*old(self), msg).key_set().remove(k)
                    &&& final(self).config == syscall_state(*old(self), msg).config
                    &&& final(self).should_exit == syscall_state(*old(self), msg).should_exit
                },
                None => {
                    &&& r == Err::<Command, IfaceError>(IfaceError::UnknownKey)
                    &&& *final(self) == syscall_state(*old(self), msg)
                },
            }),
    {
        match self.syscall(msg) {
            Err(e) => Err(e),
            Ok(()) => match self.to_key(key) {
                None => Err(IfaceError::UnknownKey),
                Some(k) => {
                    let ghost mid = *self;
                    let ghost pre = self.pressed_keys@;
                    let mut i: usize = 0;
                    while i < self.pressed_keys.len()
                        invariant
                            i <= self.pressed_keys@.len(),
                            *self == mid,
                            forall|j: int| 0 <= j < i ==> pre[j] != k,
                        decreases self.pressed_keys@.len() - i,
                    {
                        if self.pressed_keys[i] == k {
                            self.pressed_keys.remove(i);
                            proof {
                                lemma_remove_unique_value(pre, k, i as int);
                            }
                            return Ok(Command::KeyRelease(k));
                        }
                        i += 1;
                    }
                    proof {
                        assert(!pre.contains(k));
                        assert(self.key_set().remove(k) =~= self.key_set());
                    }
                    Ok(Command::KeyRelease(k))
                },
            },
        }
    }

    /// The `moveMouse` operation: yields the raw-mouse-move command to send.
    pub fn move_mouse(&mut self, x: i32, y: i32, msg: Option<ControlMsg>) -> (r: Result<
        Command,
        IfaceError,
    >)
        ensures
            *final(self) == syscall_state(*old(self), msg),
            syscall_ok(*old(self), msg) ==> r == Ok::<Command, IfaceError>(
                Command::MouseMove(x, y),
            ),
            !syscall_ok(*old(self), msg) ==> r == Err::<Command, IfaceError>(
                syscall_err(*old(self), msg),
            ),
    {
        match self.syscall(msg) {
            Err(e) => Err(e),
            Ok(()) => Ok(Command::MouseMove(x, y)),
        }
    }

    /// The `step` operation, first half: the advance-frame command is sent
    /// before the cancellation check, so a cancelled script still lets the
    /// pending frame settle. The boundary sends `r.0`, then unwinds if `r.1`
    /// is an error, and otherwise blocks for the next status and hands it to
    /// [`on_status`].
    pub fn step(&mut self, msg: Option<ControlMsg>) -> (r: (Command, Result<(), IfaceError>))
        ensures
            r.0 == Command::Step,
            *final(self) == syscall_state(*old(self), msg),
            r.1 is Ok <==> syscall_ok(*old(self), msg),
            r.1 is Err ==> r.1 == Err::<(), IfaceError>(syscall_err(*old(self), msg)),
    {
        let chk = self.syscall(msg);
        (Command::Step, chk)
    }

    /// The `getDelta` operation: the address to load the current delta-time
    /// from.
    pub fn get_delta(&mut self, msg: Option<ControlMsg>, app: &FApp) -> (r: Result<
        usize,
        IfaceError,
    >)
        ensures
            *final(self) == syscall_state(*old(self), msg),
            syscall_ok(*old(self), msg) ==> r == Ok::<usize, IfaceError>(app.delta_addr),
            !syscall_ok(*old(self), msg) ==> r == Err::<usize, IfaceError>(
                syscall_err(*old(self), msg),
            ),
    {
        match self.syscall(msg) {
            Err(e) => Err(e),
            Ok(()) => Ok(app.delta()),
        }
    }

    /// The `setDelta` operation: yields the clock-override command to send;
    /// `None` clears the override.
    pub fn set_delta(&mut self, delta: Option<u64>, msg: Option<ControlMsg>) -> (r: Result<
        Command,
        IfaceError,
    >)
        ensures
            *final(self) == syscall_state(*old(self), msg),
            syscall_ok(*old(self), msg) ==> r == Ok::<Command, IfaceError>(
                Command::SetFrameDelta(delta),
            ),
            !syscall_ok(*old(self), msg) ==> r == Err::<Command, IfaceError>(
                syscall_err(*old(self), msg),
            ),
    {
        match self.syscall(msg) {
            Err(e) => Err(e),
            Ok(()) => Ok(Command::SetFrameDelta(delta)),
        }
    }

    /// The `getLocation` operation: the addresses of the position
    /// components, in x, y, z order.
    pub fn get_location(&mut self, msg: Option<ControlMsg>, character: &AMyCharacter) -> (r: Result<
        (usize, usize, usize),
        IfaceError,
    >)
        requires
            character.wf(),
        ensures
            *final(self) == syscall_state(*old(self), msg),
            syscall_ok(*old(self), msg) ==> r == Ok::<(usize, usize, usize), IfaceError>(
                (
                    (character.base + crate::accessors::CHARACTER_LOCATION) as usize,
                    (character.base + crate::accessors::CHARACTER_LOCATION + 4) as usize,
                    (character.base + crate::accessors::CHARACTER_LOCATION + 8) as usize,
                ),
            ),
            !syscall_ok(*old(self), msg) ==> r == Err::<(usize, usize, usize), IfaceError>(
                syscall_err(*old(self), msg),
            ),
    {
        match self.syscall(msg) {
            Err(e) => Err(e),
            Ok(()) => Ok(character.location()),
        }
    }

    /// The `setLocation` operation: yields the position command to send.
    pub fn set_location(&mut self, x: u32, y: u32, z: u32, msg: Option<ControlMsg>) -> (r: Result<
        Command,
        IfaceError,
    >)
        ensures
            *final(self) == syscall_state(*old(self), msg),
            syscall_ok(*old(self), msg) ==> r == Ok::<Command, IfaceError>(
                Command::SetPosition(x, y, z),
            ),
            !syscall_ok(*old(self), msg) ==> r == Err::<Command, IfaceError>(
                syscall_err(*old(self), msg),
            ),
    {
        match self.syscall(msg) {
            Err(e) => Err(e),
            Ok(()) => Ok(Command::SetPosition(x, y, z)),
        }
    }

    /// The `getRotation` operation: the addresses of pitch, yaw and roll, in
    /// that order.
    pub fn get_rotation(&mut self, msg: Option<ControlMsg>, controller: &AController) -> (r: Result<
        (usize, usize, usize),
        IfaceError,
    >)
        requires
            controller.wf(),
        ensures
            *final(self) == syscall_state(*old(self), msg),
            syscall_ok(*old(self), msg) ==> r == Ok::<(usize, usize, usize), IfaceError>(
                (
                    (controller.base + crate::accessors::CONTROLLER_PITCH) as usize,
                    (controller.base + crate::accessors::CONTROLLER_YAW) as usize,
                    (controller.base + crate::accessors::CONTROLLER_ROLL) as usize,
                ),
            ),
            !syscall_ok(*old(self), msg) ==> r == Err::<(usize, usize, usize), IfaceError>(
                syscall_err(*old(self), msg),
            ),
    {
        match self.syscall(msg) {
            Err(e) => Err(e),
            Ok(()) => Ok(controller.rotation()),
        }
    }

    /// The `setRotation` operation: yields the orientation command to send.
    pub fn set_rotation(&mut self, pitch: u32, yaw: u32, roll: u32, msg: Option<ControlMsg>) -> (r:
        Result<Command, IfaceError>)
        ensures
            *final(self) == syscall_state(*old(self), msg),
            syscall_ok(*old(self), msg) ==> r == Ok::<Command, IfaceError>(
                Command::SetOrientation(pitch, yaw, roll),
            ),
            !syscall_ok(*old(self), msg) ==> r == Err::<Command, IfaceError>(
                syscall_err(*old(self), msg),
            ),
    {
        match self.syscall(msg) {
            Err(e) => Err(e),
            Ok(()) => Ok(Command::SetOrientation(pitch, yaw, roll)),
        }
    }

    /// The `getVelocity` operation: the addresses of the velocity
    /// components, in x, y, z order.
    pub fn get_velocity(&mut self, msg: Option<ControlMsg>, character: &AMyCharacter) -> (r: Result<
        (usize, usize, usize),
        IfaceError,
    >)
        requires
            character.wf(),
        ensures
            *final(self) == syscall_state(*old(self), msg),
            syscall_ok(*old(self), msg) ==> r == Ok::<(usize, usize, usize), IfaceError>(
                (
                    (character.base + crate::accessors::CHARACTER_VELOCITY) as usize,
                    (character.base + crate::accessors::CHARACTER_VELOCITY + 4) as usize,
                    (character.base + crate::accessors::CHARACTER_VELOCITY + 8) as usize,
                ),
            ),
            !syscall_ok(*old(self), msg) ==> r == Err::<(usize, usize, usize), IfaceError>(
                syscall_err(*old(self), msg),
            ),
    {
        match self.syscall(msg) {
            Err(e) => Err(e),
            Ok(()) => Ok(character.velocity()),
        }
    }

    /// The `setVelocity` operation: yields the velocity command to send.
    pub fn set_velocity(&mut self, x: u32, y: u32, z: u32, msg: Option<ControlMsg>) -> (r: Result<
        Command,
        IfaceError,
    >)
        ensures
            *final(self) == syscall_state(*old(self), msg),
            syscall_ok(*old(self), msg) ==> r == Ok::<Command, IfaceError>(
                Command::SetVelocity(x, y, z),
            ),
            !syscall_ok(*old(self), msg) ==> r == Err::<Command, IfaceError>(
                syscall_err(*old(self), msg),
            ),
    {
        match self.syscall(msg) {
            Err(e) => Err(e),
            Ok(()) => Ok(Command::SetVelocity(x, y, z)),
        }
    }

    /// The `getAcceleration` operation: the addresses of the acceleration
    /// components, in x, y, z order.
    pub fn get_acceleration(&mut self, msg: Option<ControlMsg>, character: &AMyCharacter) -> (r:
        Result<(usize, usize, usize), IfaceError>)
        requires
            character.wf(),
        ensures
            *final(self) == syscall_state(*old(self), msg),
            syscall_ok(*old(self), msg) ==> r == Ok::<(usize, usize, usize), IfaceError>(
                (
                    (character.base + crate::accessors::CHARACTER_ACCELERATION) as usize,
                    (character.base + crate::accessors::CHARACTER_ACCELERATION + 4) as usize,
                    (character.base + crate::accessors::CHARACTER_ACCELERATION + 8) as usize,
                ),
            ),
            !syscall_ok(*old(self), msg) ==> r == Err::<(usize, usize, usize), IfaceError>(
                syscall_err(*old(self), msg),
            ),
    {
        match self.syscall(msg) {
            Err(e) => Err(e),
            Ok(()) => Ok(character.acceleration()),
        }
    }

    /// The `setAcceleration` operation. No command carries acceleration, so
    /// it is written directly through the accessor while the host is parked:
    /// the result is the exact writes to perform.
    pub fn set_acceleration(
        &mut self,
        x: u32,
        y: u32,
        z: u32,
        msg: Option<ControlMsg>,
        character: &AMyCharacter,
    ) -> (r: Result<Vec<Write32>, IfaceError>)
        requires
            character.wf(),
        ensures
            *final(self) == syscall_state(*old(self), msg),
            syscall_ok(*old(self), msg) ==> (r matches Ok(w) && w@ == seq![
                (
                    Write32 {
                        addr: (character.base + crate::accessors::CHARACTER_ACCELERATION) as usize,
                        bits: x,
                    }
                ),
                (
                    Write32 {
                        addr: (character.base + crate::accessors::CHARACTER_ACCELERATION
                            + 4) as usize,
                        bits: y,
                    }
                ),
                (
                    Write32 {
                        addr: (character.base + crate::accessors::CHARACTER_ACCELERATION
                            + 8) as usize,
                        bits: z,
                    }
                ),
            ]),
            !syscall_ok(*old(self), msg) ==> r == Err::<Vec<Write32>, IfaceError>(
                syscall_err(*old(self), msg),
            ),
    {
        match self.syscall(msg) {
            Err(e) => Err(e),
            Ok(()) => Ok(character.set_acceleration(x, y, z)),
        }
    }

    /// The `print` operation: hands the text back for the boundary to put on
    /// the output stream.
    pub fn print(&mut self, s: String, msg: Option<ControlMsg>) -> (r: Result<String, IfaceError>)
        ensures
            *final(self) == syscall_state(*old(self), msg),
            syscall_ok(*old(self), msg) ==> (r matches Ok(out) && out@ == s@),
            !syscall_ok(*old(self), msg) ==> r == Err::<String, IfaceError>(
                syscall_err(*old(self), msg),
            ),
    {
        match self.syscall(msg) {
            Err(e) => Err(e),
            Ok(()) => Ok(s),
        }
    }

    /// The automatic cleanup on script termination — normal, erroring or
    /// cancelled: every still-held key yields exactly one release command,
    /// the held-key set is left empty, and the cancellation flag is cleared,
    /// so no input stays stuck across sessions.
    pub fn reset(&mut self) -> (r: Vec<Command>)
        requires
            old(self).wf(),
        ensures
            final(self).wf(),
            final(self).pressed_keys@.len() == 0,
            !final(self).should_exit,
            final(self).config == old(self).config,
            r@.len() == old(self).pressed_keys@.len(),
            forall|i: int|
                0 <= i < r@.len() ==> r@[i] == Command::KeyRelease(old(self).pressed_keys@[i]),
    {
        let mut r: Vec<Command> = Vec::new();
        let mut i: usize = 0;
        while i < self.pressed_keys.len()
            invariant
                i <= self.pressed_keys@.len(),
                r@.len() == i,
                forall|j: int|
                    0 <= j < i ==> r@[j] == Command::KeyRelease(self.pressed_keys@[j]),
            decreases self.pressed_keys@.len() - i,
        {
            r.push(Command::KeyRelease(self.pressed_keys[i]));
            i += 1;
        }
        self.pressed_keys = Vec::new();
        self.should_exit = false;
        r
    }
}

/// Removing the only occurrence of `k` from a duplicate-free sequence takes
/// `k` out of the derived set, keeps every other element, and preserves
/// freedom from duplicates.
proof fn lemma_remove_unique_value(s: Seq<i32>, k: i32, i: int)
    requires
        0 <= i < s.len(),
        s[i] == k,
        forall|p: int, q: int| 0 <= p < q < s.len() ==> s[p] != s[q],
    ensures
        s.remove(i).to_set() == s.to_set().remove(k),
        forall|p: int, q: int| 0 <= p < q < s.remove(i).len() ==> s.remove(i)[p] != s.remove(i)[q],
{
    s.remove_ensures(i);
    let t = s.remove(i);
    assert forall|x: i32| t.to_set().contains(x) implies s.to_set().remove(k).contains(x) by {
        let j = t.lemma_contains_to_index(x);
        if j < i {
            assert(s[j] == x);
        } else {
            assert(s[j + 1] == x);
        }
        assert(s.contains(x));
        assert(x != k) by {
            if j < i {
                assert(s[j] != s[i]);
            } else {
                assert(s[i] != s[j + 1]);
            }
        }
    }
    assert forall|x: i32| s.to_set().remove(k).contains(x) implies t.to_set().contains(x) by {
        let j = s.lemma_contains_to_index(x);
        assert(j != i);
        if j < i {
            assert(t[j] == x);
        } else {
            assert(t[j - 1] == x);
        }
        assert(t.contains(x));
    }
    assert(t.to_set() =~= s.to_set().remove(k));
}

/// Law: the held-key tracking has set semantics, not a counter's. Releasing
/// a key that was never pressed is a no-op on the held set; pressing the
/// same key twice holds it once, so one release leaves it released.
pub proof fn lemma_key_tracking_set_semantics(held: Set<i32>, k: i32)
    ensures
        !held.contains(k) ==> held.remove(k) == held,
        held.insert(k).insert(k) == held.insert(k),
        !held.insert(k).insert(k).remove(k).contains(k),
{
    if !held.contains(k) {
        assert(held.remove(k) =~= held);
    }
    assert(held.insert(k).insert(k) =~= held.insert(k));
}

/// Law: the cleanup on script termination releases each held key exactly
/// once — every held key appears among the release commands, and no release
/// command is repeated or names an unheld key.
pub proof fn lemma_reset_releases_each_held_key_once(g: GameInterface, r: Seq<Command>)
    requires
        g.wf(),
        r.len() == g.pressed_keys@.len(),
        forall|i: int| 0 <= i < r.len() ==> r[i] == Command::KeyRelease(g.pressed_keys@[i]),
    ensures
        forall|k: i32| g.key_set().contains(k) ==> r.contains(Command::KeyRelease(k)),
        forall|i: int, j: int| 0 <= i < j < r.len() ==> r[i] != r[j],
        forall|i: int|
            0 <= i < r.len() ==> (#[trigger] r[i] matches Command::KeyRelease(k)
                && g.key_set().contains(k)),
{
    assert forall|k: i32| g.key_set().contains(k) implies r.contains(Command::KeyRelease(k)) by {
        let j = g.pressed_keys@.lemma_contains_to_index(k);
        assert(r[j] == Command::KeyRelease(k));
    }
    assert forall|i: int|
        0 <= i < r.len() implies (#[trigger] r[i] matches Command::KeyRelease(k)
        && g.key_set().contains(k)) by {
        assert(g.pressed_keys@.contains(g.pressed_keys@[i]));
    }
}

/// What the script-facing interface reports for a received status.
pub fn on_status(status: Status) -> (e: Event)
    ensures
        e == (match status {
            Status::Stopped => Event::Stopped,
            Status::SessionReset => Event::NewGame,
        }),
{
    match status {
        Status::Stopped => Event::Stopped,
        Status::SessionReset => Event::NewGame,
    }
}

/// The decision core of the `waitForNewGame` operation: the position of the
/// first session boundary in the observed status stream. The operation
/// returns only after a session reset, having consumed and ignored every
/// intervening frame acknowledgement.
pub fn wait_for_new_game(events: &Vec<Event>) -> (r: Option<usize>)
    ensures
        (match r {
            Some(i) => {
                &&& i < events@.len()
                &&& events@[i as int] == Event::NewGame
                &&& forall|j: int| 0 <= j < i ==> events@[j] == Event::Stopped
            },
            None => forall|j: int| 0 <= j < events@.len() ==> events@[j] == Event::Stopped,
        }),
{
    let mut i: usize = 0;
    while i < events.len()
        invariant
            i <= events@.len(),
            forall|j: int| 0 <= j < i ==> events@[j] == Event::Stopped,
        decreases events@.len() - i,
    {
        match events[i] {
            Event::NewGame => {
                return Some(i);
            },
            Event::Stopped => {
                i += 1;
            },
        }
    }
    None
}

/// What the script thread decides to do with one control message received
/// while idle (between sessions).
#[derive(Debug, PartialEq, Eq)]
pub enum RxAction {
    /// Nothing to run; state may have been updated in place.
    Idle,
    /// Run a session: send `pause` on the command queue, execute `script`,
    /// then perform the cleanup of [`Tas::finish_script`].
    Run { pause: Command, script: String },
}

/// What the cleanup after a session asks the boundary to send: the key
/// releases, then the resume command that lets the host free-run again.
pub struct Cleanup {
    /// One key-up command per key still held at termination.
    pub releases: Vec<Command>,
    /// The terminal command restoring free-running mode.
    pub resume: Command,
}

/// The idle-loop state of the script thread: the interface shared with the
/// script and the working directory for module resolution.
pub struct Tas {
    /// The script-facing interface.
    pub iface: GameInterface,
    /// Where script modules are resolved from, once set.
    pub working_dir: Option<String>,
}

impl Tas {
    /// A fresh script thread state.
    pub fn new(config: Config) -> (t: Tas)
        ensures
            t.iface.wf(),
            t.iface.pressed_keys@.len() == 0,
            t.iface.config == config,
            !t.iface.should_exit,
            t.working_dir is None,
    {
        Tas { iface: GameInterface::new(config), working_dir: None }
    }

    /// Handles one control message received while no script runs: a stray
    /// cancellation is ignored, configuration and working directory are
    /// stored, and `Start` yields the session to run — pausing the host
    /// first, as the returned action records.
    pub fn handle_rx(&mut self, msg: ControlMsg) -> (a: RxAction)
        requires
            old(self).iface.wf(),
        ensures
            final(self).iface.wf(),
            (match msg {
                ControlMsg::Stop => {
                    &&& a == RxAction::Idle
                    &&& *final(self) == *old(self)
                },
                ControlMsg::Config(c) => {
                    &&& a == RxAction::Idle
                    &&& final(self).iface.config == c
                    &&& final(self).iface.pressed_keys == old(self).iface.pressed_keys
                    &&& final(self).iface.should_exit == old(self).iface.should_exit
                    &&& final(self).working_dir == old(self).working_dir
                },
                ControlMsg::WorkingDir(d) => {
                    &&& a == RxAction::Idle
                    &&& final(self).working_dir == Some(d)
                    &&& final(self).iface == old(self).iface
                },
                ControlMsg::Start(s) => {
                    &&& a == (RxAction::Run { pause: Command::Stop, script: s })
                    &&& *final(self) == *old(self)
                },
            }),
    {
        match msg {
            ControlMsg::Stop => RxAction::Idle,
            ControlMsg::Config(c) => {
                self.iface.config = c;
                RxAction::Idle
            },
            ControlMsg::WorkingDir(d) => {
                self.working_dir = Some(d);
                RxAction::Idle
            },
            ControlMsg::Start(s) => RxAction::Run { pause: Command::Stop, script: s },
        }
    }

    /// The cleanup run after every session, however it ended: the automatic
    /// key release and flag reset of [`GameInterface::reset`], followed by
    /// the resume command that puts the host back in free-running mode.
    pub fn finish_script(&mut self) -> (c: Cleanup)
        requires
            old(self).iface.wf(),
        ensures
            final(self).iface.wf(),
            c.resume == Command::Continue,
            final(self).iface.pressed_keys@.len() == 0,
            !final(self).iface.should_exit,
            final(self).iface.config == old(self).iface.config,
            final(self).working_dir == old(self).working_dir,
            c.releases@.len() == old(self).iface.pressed_keys@.len(),
            forall|i: int|
                0 <= i < c.releases@.len() ==> c.releases@[i] == Command::KeyRelease(
                    old(self).iface.pressed_keys@[i],
                ),
    {
        let releases = self.iface.reset();
        Cleanup { releases, resume: Command::Continue }
    }
}

} // verus!
