use vstd::prelude::*;

verus! {

/// A discrete keyboard movement request for the camera.
#[allow(non_camel_case_types)]
#[derive(Clone, Copy, Debug, PartialEq, Eq, Structural)]
pub enum CameraMovement {
    FORWARD,
    BACKWARD,
    LEFT,
    RIGHT,
}

/// One of the two camera basis vectors along which the keyboard translates.
#[derive(Clone, Copy, Debug, PartialEq, Eq, Structural)]
pub enum Axis {
    Front,
    Right,
}

/// The basis vector a movement translates along.
pub open spec fn movement_axis(direction: CameraMovement) -> Axis {
    match direction {
        CameraMovement::FORWARD | CameraMovement::BACKWARD => Axis::Front,
        CameraMovement::LEFT | CameraMovement::RIGHT => Axis::Right,
    }
}

/// `1` when the movement goes along its axis, `-1` when against it.
pub open spec fn movement_sign(direction: CameraMovement) -> int {
    match direction {
        CameraMovement::FORWARD | CameraMovement::RIGHT => 1,
        CameraMovement::BACKWARD | CameraMovement::LEFT => -1,
    }
}

impl CameraMovement {
    /// The basis vector (`front` or `right`) this movement translates along.
    pub fn axis(self) -> (r: Axis)
        ensures
            r == movement_axis(self),
    {
        match self {
            CameraMovement::FORWARD | CameraMovement::BACKWARD => Axis::Front,
            CameraMovement::LEFT | CameraMovement::RIGHT => Axis::Right,
        }
    }

    /// The sign applied to `velocity * axis`: the position moves by
    /// `sign * velocity * axis`.
    pub fn sign(self) -> (r: i8)
        ensures
            r as int == movement_sign(self),
            r == 1 || r == -1,
    {
        match self {
            CameraMovement::FORWARD | CameraMovement::RIGHT => 1,
            CameraMovement::BACKWARD | CameraMovement::LEFT => -1,
        }
    }
}

/// Which movement keys are held in the current frame.
#[derive(Clone, Copy, Debug, PartialEq, Eq, Structural)]
pub struct MovementKeys {
    pub forward: bool,
    pub backward: bool,
    pub left: bool,
    pub right: bool,
}

/// The movements requested by the held keys, in the fixed order
/// forward, backward, left, right.
pub open spec fn held_movements_spec(keys: MovementKeys) -> Seq<CameraMovement> {
    (if keys.forward { seq![CameraMovement::FORWARD] } else { Seq::empty() })
        + (if keys.backward { seq![CameraMovement::BACKWARD] } else { Seq::empty() })
        + (if keys.left { seq![CameraMovement::LEFT] } else { Seq::empty() })
        + (if keys.right { seq![CameraMovement::RIGHT] } else { Seq::empty() })
}

impl MovementKeys {
    /// Maps the held keys one to one onto camera movements, each of which the
    /// frame applies with its delta time.
    pub fn held_movements(&self) -> (r: Vec<CameraMovement>)
        ensures
            r@ == held_movements_spec(*self),
    {
        let mut r: Vec<CameraMovement> = Vec::new();
        if self.forward {
            r.push(CameraMovement::FORWARD);
        }
        if self.backward {
            r.push(CameraMovement::BACKWARD);
        }
        if self.left {
            r.push(CameraMovement::LEFT);
        }
        if self.right {
            r.push(CameraMovement::RIGHT);
        }
        assert(r@ =~= held_movements_spec(*self));
        r
    }
}

} // verus!
