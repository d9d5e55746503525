use vstd::prelude::*;

verus! {

/// Exclusive upper bound of the rotation, in millionths (`1.4`).
pub const ROTATION_LIMIT: u32 = 1_400_000;

/// The rotation after one advance: the sum, or `0` once it reaches the bound.
/// The excess past the bound is discarded, not carried over.
pub open spec fn advanced(rotation: nat, delta: nat) -> nat {
    if rotation + delta >= ROTATION_LIMIT {
        0
    } else {
        rotation + delta
    }
}

/// The animation state: one rotation, always in `[0, ROTATION_LIMIT)`.
pub struct Context {
    rotation: u32,
}

impl View for Context {
    type V = nat;

    closed spec fn view(&self) -> nat {
        self.rotation as nat
    }
}

impl Context {
    #[verifier::type_invariant]
    spec fn inv(&self) -> bool {
        self.rotation < ROTATION_LIMIT
    }

    /// A state at rotation zero.
    pub fn new() -> (r: Context)
        ensures
            r@ == 0,
    {
        Context { rotation: 0 }
    }

    /// A state at the given rotation, which must lie within the bound.
    pub fn with_rotation(rotation: u32) -> (r: Context)
        requires
            rotation < ROTATION_LIMIT,
        ensures
            r@ == rotation,
    {
        Context { rotation }
    }

    /// The current rotation, in millionths; it is below the bound in every state.
    pub fn rotation(&self) -> (r: u32)
        ensures
            r == self@,
            r < ROTATION_LIMIT,
    {
        proof {
            use_type_invariant(self);
        }
        self.rotation
    }

    /// Adds `delta` (in microseconds of elapsed time) to the rotation and returns
    /// the new rotation; a sum that reaches the bound resets the rotation to zero.
    pub fn advance(&mut self, delta: u32) -> (r: u32)
        ensures
            final(self)@ == advanced(old(self)@, delta as nat),
            final(self)@ < ROTATION_LIMIT,
            old(self)@ + delta < ROTATION_LIMIT ==> final(self)@ == old(self)@ + delta,
            old(self)@ + delta >= ROTATION_LIMIT ==> final(self)@ == 0,
            delta == 0 ==> final(self)@ == old(self)@,
            r == final(self)@,
    {
        proof {
            use_type_invariant(&*self);
        }
        let next: u32 = if delta >= ROTATION_LIMIT - self.rotation {
            0
        } else {
            self.rotation + delta
        };
        *self = Context { rotation: next };
        next
    }
}

} // verus!
