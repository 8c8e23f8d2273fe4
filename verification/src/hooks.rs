//! Interception engine: installs and removes low-level redirections on fixed
//! entry points of the host process.
//!
//! The engine itself never touches foreign memory. `install` checks the bytes
//! read at the entry point against the expected prologue and produces the
//! exact patch to write (a relative jump to the replacement routine) together
//! with a handle that remembers the saved bytes; `remove` hands the saved
//! bytes back for restoration and is idempotent. The unverified boundary is
//! only trusted to write the returned bytes at the returned address.

use vstd::prelude::*;

verus! {

/// Length of the emitted patch: one opcode byte plus a 32-bit displacement.
pub const JMP_LEN: usize = 5;

/// Host entry points live in a 32-bit address space; installation refuses
/// anything outside it so the displacement arithmetic below is exact.
pub const ADDR_SPACE: u64 = 0x1_0000_0000;

/// The displacement field of a relative jump at `target` that transfers
/// control to `replacement`: the distance from the end of the patch,
/// wrapped to 32 bits.
pub open spec fn rel32_of(target: usize, replacement: usize) -> u32 {
    ((replacement - (target + JMP_LEN)) % (ADDR_SPACE as int)) as u32
}

/// The four bytes of `v` in little-endian order.
pub open spec fn le32(v: u32) -> Seq<u8> {
    seq![
        (v & 0xff) as u8,
        ((v >> 8) & 0xff) as u8,
        ((v >> 16) & 0xff) as u8,
        ((v >> 24) & 0xff) as u8,
    ]
}

/// The full patch written over the prologue of `target`: a near jump
/// (opcode `0xe9`) to `replacement`.
pub open spec fn jmp_bytes(target: usize, replacement: usize) -> Seq<u8> {
    seq![0xe9u8] + le32(rel32_of(target, replacement))
}

/// An installation failure: the bytes found at the entry point do not match
/// the expected prologue, so the process is a build this engine does not
/// know. Treated as fatal at attach time by the caller.
#[derive(Debug, Clone, Copy, PartialEq, Eq)]
pub enum HookError {
    SignatureMismatch,
}

/// An installed redirection: where it sits, the bytes it displaced, and
/// whether the patch is currently in place.
pub struct HookHandle {
    /// Address of the hooked entry point.
    pub target: usize,
    /// Address of the replacement routine control is redirected to.
    pub replacement: usize,
    /// The original prologue bytes, kept for restoration.
    pub saved: Vec<u8>,
    /// Whether the patch is currently written over the prologue.
    pub installed: bool,
}

/// Compares two byte vectors for equality of their contents.
pub fn bytes_eq(a: &Vec<u8>, b: &Vec<u8>) -> (r: bool)
    ensures
        r == (a@ == b@),
{
    if a.len() != b.len() {
        return false;
    }
    let mut i: usize = 0;
    while i < a.len()
        invariant
            i <= a.len(),
            a@.len() == b@.len(),
            forall|j: int| 0 <= j < i ==> a@[j] == b@[j],
        decreases a.len() - i,
    {
        if a[i] != b[i] {
            return false;
        }
        i += 1;
    }
    proof {
        assert(a@ =~= b@);
    }
    true
}

/// Computes the displacement field of the patch for `target` and
/// `replacement`.
pub fn rel32(target: usize, replacement: usize) -> (r: u32)
    requires
        target + JMP_LEN < ADDR_SPACE,
        replacement < ADDR_SPACE,
    ensures
        r == rel32_of(target, replacement),
{
    let end: u64 = target as u64 + JMP_LEN as u64;
    let num: u64 = (replacement as u64 + ADDR_SPACE) - end;
    let r: u64 = num % ADDR_SPACE;
    proof {
        let m = ADDR_SPACE as int;
        vstd::arithmetic::div_mod::lemma_mod_add_multiples_vanish(
            replacement - (target + JMP_LEN),
            m,
        );
    }
    r as u32
}

/// Serializes `v` in little-endian order.
pub fn encode_le32(v: u32) -> (r: Vec<u8>)
    ensures
        r@ == le32(v),
{
    let mut r: Vec<u8> = Vec::new();
    r.push((v & 0xff) as u8);
    r.push(((v >> 8) & 0xff) as u8);
    r.push(((v >> 16) & 0xff) as u8);
    r.push(((v >> 24) & 0xff) as u8);
    proof {
        assert(r@ =~= le32(v));
    }
    r
}

/// Serializes the patch for a near jump at `target` that transfers control
/// to `replacement`.
pub fn emit_jmp(target: usize, replacement: usize) -> (r: Vec<u8>)
    requires
        target + JMP_LEN < ADDR_SPACE,
        replacement < ADDR_SPACE,
    ensures
        r@ == jmp_bytes(target, replacement),
        r@.len() == JMP_LEN,
{
    let mut patch: Vec<u8> = Vec::new();
    patch.push(0xe9u8);
    let disp = encode_le32(rel32(target, replacement));
    let mut i: usize = 0;
    while i < disp.len()
        invariant
            i <= disp.len(),
            disp@ == le32(rel32_of(target, replacement)),
            patch@ == seq![0xe9u8] + disp@.take(i as int),
        decreases disp.len() - i,
    {
        patch.push(disp[i]);
        proof {
            assert(disp@.take(i + 1) =~= disp@.take(i as int).push(disp@[i as int]));
            assert(patch@ =~= seq![0xe9u8] + disp@.take(i + 1));
        }
        i += 1;
    }
    proof {
        assert(disp@.take(disp@.len() as int) =~= disp@);
        assert(patch@ =~= jmp_bytes(target, replacement));
    }
    patch
}

impl HookHandle {
    /// Prepares the redirection of `target` to `replacement`.
    ///
    /// `original` holds the bytes currently found at `target` (read by the
    /// unverified boundary); `expected` is the prologue this build is known
    /// to have there. On a match the returned patch, written over the
    /// prologue, transfers control to `replacement`; on a mismatch nothing
    /// may be written — a wrong process build must fail loudly instead of
    /// corrupting unrelated code.
    pub fn install(
        target: usize,
        replacement: usize,
        original: Vec<u8>,
        expected: &Vec<u8>,
    ) -> (r: Result<(HookHandle, Vec<u8>), HookError>)
        requires
            original@.len() >= JMP_LEN,
            target + JMP_LEN < ADDR_SPACE,
            replacement < ADDR_SPACE,
        ensures
            r is Ok <==> original@ == expected@,
            r matches Ok(ok) ==> ({
                &&& ok.0.target == target
                &&& ok.0.replacement == replacement
                &&& ok.0.saved@ == original@
                &&& ok.0.installed
                &&& ok.1@ == jmp_bytes(target, replacement)
            }),
            r is Err ==> r == Err::<(HookHandle, Vec<u8>), HookError>(HookError::SignatureMismatch),
    {
        if !bytes_eq(&original, expected) {
            return Err(HookError::SignatureMismatch);
        }
        let patch = emit_jmp(target, replacement);
        let handle = HookHandle { target, replacement, saved: original, installed: true };
        Ok((handle, patch))
    }

    /// The bytes of a callable trampoline to the un-hooked routine, laid out
    /// at address `at`: the saved prologue re-executed, then a jump into the
    /// original routine right behind the patched bytes — so the replacement
    /// can still invoke the original behaviour while the hook is in place.
    pub fn trampoline(&self, at: usize) -> (r: Vec<u8>)
        requires
            at + self.saved@.len() + JMP_LEN < ADDR_SPACE,
            self.target + JMP_LEN < ADDR_SPACE,
        ensures
            r@ == self.saved@ + jmp_bytes(
                (at + self.saved@.len()) as usize,
                (self.target + JMP_LEN) as usize,
            ),
    {
        let mut r = self.saved.clone();
        let jump_from = at + r.len();
        let jump = emit_jmp(jump_from, self.target + JMP_LEN);
        let mut i: usize = 0;
        while i < jump.len()
            invariant
                i <= jump@.len(),
                r@ == self.saved@ + jump@.take(i as int),
                jump@ == jmp_bytes(jump_from as usize, (self.target + JMP_LEN) as usize),
            decreases jump.len() - i,
        {
            r.push(jump[i]);
            proof {
                assert(jump@.take(i + 1) =~= jump@.take(i as int).push(jump@[i as int]));
                assert(r@ =~= self.saved@ + jump@.take(i + 1));
            }
            i += 1;
        }
        proof {
            assert(jump@.take(jump@.len() as int) =~= jump@);
        }
        r
    }

    /// Removes the redirection: hands back the saved prologue bytes to write
    /// over the patch. Idempotent — a second call finds the hook already
    /// removed, changes nothing and returns `None` — and therefore safe to
    /// call from inside the replacement routine itself.
    pub fn remove(&mut self) -> (r: Option<Vec<u8>>)
        ensures
            !final(self).installed,
            final(self).target == old(self).target,
            final(self).replacement == old(self).replacement,
            final(self).saved@ == old(self).saved@,
            r is Some <==> old(self).installed,
            r matches Some(b) ==> b@ == old(self).saved@,
    {
        if self.installed {
            self.installed = false;
            Some(self.saved.clone())
        } else {
            None
        }
    }
}

/// A process-wide slot for one captured host pointer: set exactly once per
/// process lifetime by a one-shot hook, then read by every later accessor.
pub struct CapturedSlot {
    /// The captured pointer, if capture has happened.
    pub value: Option<usize>,
}

impl CapturedSlot {
    /// An empty slot, as it exists before the capture hook fires.
    pub fn empty() -> (r: CapturedSlot)
        ensures
            r.value is None,
    {
        CapturedSlot { value: None }
    }

    /// Records the captured pointer. Capture happens once per process
    /// lifetime, so the slot must still be empty.
    pub fn capture(&mut self, addr: usize)
        requires
            old(self).value is None,
        ensures
            final(self).value == Some(addr),
    {
        self.value = Some(addr);
    }

    /// Whether capture has happened.
    pub fn is_captured(&self) -> (r: bool)
        ensures
            r == (self.value is Some),
    {
        self.value.is_some()
    }

    /// The captured pointer. Reading before capture is a caller error; the
    /// tick state machine only issues accessor calls after capture, which the
    /// host's own startup path guarantees.
    pub fn addr(&self) -> (r: usize)
        requires
            self.value is Some,
        ensures
            self.value == Some(r),
    {
        self.value.unwrap()
    }
}

/// A one-shot hook: fires once to capture a calling-convention argument (a
/// host object's `this` pointer), removes itself, and lets every later call
/// pass through untouched.
pub struct OnceHook {
    /// The underlying redirection.
    pub hook: HookHandle,
    /// `false` while armed; `true` once the replacement has run.
    pub fired: bool,
}

impl OnceHook {
    /// Arms a freshly installed hook.
    pub fn arm(hook: HookHandle) -> (r: OnceHook)
        ensures
            r.hook == hook,
            !r.fired,
    {
        OnceHook { hook, fired: false }
    }

    /// The replacement body of the one-shot hook: on its first run it stores
    /// `arg` in `slot` and removes its own patch (returning the bytes to
    /// restore); any later run changes nothing. Self-removal reuses
    /// `HookHandle::remove`, which is safe to call from inside the
    /// replacement.
    pub fn fire(&mut self, arg: usize, slot: &mut CapturedSlot) -> (r: Option<Vec<u8>>)
        requires
            !old(self).fired ==> old(slot).value is None,
        ensures
            final(self).fired,
            old(self).fired ==> ({
                &&& *final(self) == *old(self)
                &&& *final(slot) == *old(slot)
                &&& r is None
            }),
            !old(self).fired ==> ({
                &&& final(slot).value == Some(arg)
                &&& !final(self).hook.installed
                &&& final(self).hook.saved@ == old(self).hook.saved@
                &&& (r is Some <==> old(self).hook.installed)
                &&& (r matches Some(b) ==> b@ == old(self).hook.saved@)
            }),
    {
        if self.fired {
            return None;
        }
        slot.capture(arg);
        self.fired = true;
        self.hook.remove()
    }
}

} // verus!
