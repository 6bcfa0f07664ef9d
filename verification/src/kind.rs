//! The kind of a toast.

use vstd::prelude::*;
use vstd::std_specs::convert::FromSpecImpl;

verus! {

/// What a toast announces. `Custom` carries an identifier chosen by the
/// application, for kinds that it draws itself.
#[derive(Debug, Copy, Clone, Ord, PartialOrd, Eq, PartialEq, Hash, Structural)]
pub enum ToastKind {
    Info,
    Warning,
    Error,
    Success,
    Custom(u32),
}

impl ToastKind {
    /// The number that stands for this kind where kinds are looked up:
    /// the four built-in kinds first, then the custom identifiers in order.
    pub open spec fn index(self) -> nat {
        match self {
            ToastKind::Info => 0,
            ToastKind::Warning => 1,
            ToastKind::Error => 2,
            ToastKind::Success => 3,
            ToastKind::Custom(id) => 4 + id as nat,
        }
    }

    /// `index` as a machine integer.
    pub fn key(self) -> (k: u64)
        ensures
            k == self.index(),
    {
        match self {
            ToastKind::Info => 0,
            ToastKind::Warning => 1,
            ToastKind::Error => 2,
            ToastKind::Success => 3,
            ToastKind::Custom(id) => {
                let wide: u64 = id.into();
                wide + 4
            },
        }
    }

    /// Two kinds with the same index are the same kind.
    pub proof fn lemma_index_injective(a: ToastKind, b: ToastKind)
        ensures
            a.index() == b.index() <==> a == b,
    {
    }
}

impl Default for ToastKind {
    fn default() -> (kind: ToastKind)
        ensures
            kind == ToastKind::Info,
    {
        ToastKind::Info
    }
}

impl From<u32> for ToastKind {
    fn from(value: u32) -> (kind: ToastKind) {
        ToastKind::Custom(value)
    }
}

impl FromSpecImpl<u32> for ToastKind {
    open spec fn obeys_from_spec() -> bool {
        true
    }

    open spec fn from_spec(value: u32) -> ToastKind {
        ToastKind::Custom(value)
    }
}

} // verus!
