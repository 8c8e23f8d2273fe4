//! Key-binding configuration: a small fixed record mapping the symbolic key
//! names a script may use to the integer key codes the host's input-dispatch
//! subsystem understands. Immutable per session unless replaced wholesale.

use vstd::prelude::*;

verus! {

use vstd::string::StringSliceAdditionalSpecFns;
use vstd::utf8::encode_utf8_decode_utf8;

/// The key bindings of one session.
#[derive(Debug, Clone, Copy, PartialEq, Eq)]
pub struct Config {
    pub forward: i32,
    pub backward: i32,
    pub left: i32,
    pub right: i32,
    pub jump: i32,
    pub crouch: i32,
    pub menu: i32,
}

impl Default for Config {
    /// The bindings used before the outer driver configures a session: every
    /// symbolic name mapped to key code zero.
    fn default() -> (c: Config)
        ensures
            c == (Config {
                forward: 0,
                backward: 0,
                left: 0,
                right: 0,
                jump: 0,
                crouch: 0,
                menu: 0,
            }),
    {
        Config { forward: 0, backward: 0, left: 0, right: 0, jump: 0, crouch: 0, menu: 0 }
    }
}

/// Compares two string slices by contents.
pub fn str_eq(a: &str, b: &str) -> (r: bool)
    ensures
        r == (a@ == b@),
{
    let ab = a.as_bytes();
    let bb = b.as_bytes();
    proof {
        // Equal views encode to equal bytes; conversely, decoding recovers
        // the view, so equal byte sequences force equal views.
        encode_utf8_decode_utf8(a@);
        encode_utf8_decode_utf8(b@);
    }
    if ab.len() != bb.len() {
        return false;
    }
    let mut i: usize = 0;
    while i < ab.len()
        invariant
            i <= ab@.len(),
            ab@.len() == bb@.len(),
            ab@ == a.spec_bytes(),
            bb@ == b.spec_bytes(),
            forall|j: int| 0 <= j < i ==> ab@[j] == bb@[j],
        decreases ab@.len() - i,
    {
        if ab[i] != bb[i] {
            proof {
                encode_utf8_decode_utf8(a@);
                encode_utf8_decode_utf8(b@);
            }
            return false;
        }
        i += 1;
    }
    proof {
        assert(ab@ =~= bb@);
    }
    true
}

/// What a symbolic key name denotes under the bindings `cfg`: the bound key
/// code for the seven known names, nothing for anything else.
pub open spec fn spec_to_key(name: Seq<char>, cfg: Config) -> Option<i32> {
    if name == "forward"@ {
        Some(cfg.forward)
    } else if name == "backward"@ {
        Some(cfg.backward)
    } else if name == "left"@ {
        Some(cfg.left)
    } else if name == "right"@ {
        Some(cfg.right)
    } else if name == "jump"@ {
        Some(cfg.jump)
    } else if name == "crouch"@ {
        Some(cfg.crouch)
    } else if name == "menu"@ {
        Some(cfg.menu)
    } else {
        None
    }
}

/// Resolves a symbolic key name against the bindings. An unknown name yields
/// `None`: the caller treats it as a script error and fails that call fast.
pub fn to_key(key: &str, cfg: &Config) -> (r: Option<i32>)
    ensures
        r == spec_to_key(key@, *cfg),
{
    if str_eq(key, "forward") {
        Some(cfg.forward)
    } else if str_eq(key, "backward") {
        Some(cfg.backward)
    } else if str_eq(key, "left") {
        Some(cfg.left)
    } else if str_eq(key, "right") {
        Some(cfg.right)
    } else if str_eq(key, "jump") {
        Some(cfg.jump)
    } else if str_eq(key, "crouch") {
        Some(cfg.crouch)
    } else if str_eq(key, "menu") {
        Some(cfg.menu)
    } else {
        None
    }
}

} // verus!
