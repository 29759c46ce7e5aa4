//! Eye selection, and a container holding one value per eye.

use vstd::prelude::*;

verus! {

/// Integer code for the left eye.
pub const EYE_LEFT: u32 = 0;
/// Integer code for the right eye.
pub const EYE_RIGHT: u32 = 1;

/// One of the two eyes of a stereo display.
#[derive(Debug, Copy, Clone, PartialEq, Eq, Structural)]
pub enum Eye {
    Left,
    Right,
}

/// The integer code of an eye.
pub open spec fn code_of_eye(e: Eye) -> u32 {
    match e {
        Eye::Left => EYE_LEFT,
        Eye::Right => EYE_RIGHT,
    }
}

/// The eye named by an integer code; only the two defined codes name one.
pub open spec fn eye_of_code(c: u32) -> Eye {
    if c == EYE_LEFT {
        Eye::Left
    } else {
        Eye::Right
    }
}

impl Eye {
    /// Reads an eye from the driver's integer code. The driver defines
    /// exactly two codes; any other value is a caller error.
    pub fn from_ll(c: u32) -> (r: Eye)
        requires
            c == EYE_LEFT || c == EYE_RIGHT,
        ensures
            r == eye_of_code(c),
    {
        if c == EYE_LEFT {
            Eye::Left
        } else {
            Eye::Right
        }
    }

    /// The integer code to hand to the driver for this eye.
    pub fn to_ll(&self) -> (r: u32)
        ensures
            r == code_of_eye(*self),
    {
        match *self {
            Eye::Left => EYE_LEFT,
            Eye::Right => EYE_RIGHT,
        }
    }
}

/// Law: encoding an eye and decoding the code gives the eye back, and
/// decoding one of the two defined codes and encoding the result gives
/// the code back.
pub proof fn lemma_eye_code_round_trip(e: Eye, c: u32)
    ensures
        eye_of_code(code_of_eye(e)) == e,
        c == EYE_LEFT || c == EYE_RIGHT ==> code_of_eye(eye_of_code(c)) == c,
{
}

/// One value for each eye. The rendering interface hands out and takes
/// back settings in pairs, ordered left then right.
#[derive(Debug, Copy, Clone)]
pub struct PerEye<T> {
    pub left: T,
    pub right: T,
}

impl<T> PerEye<T> {
    /// The value this pair holds for one eye.
    pub open spec fn spec_eye(self, eye: Eye) -> T {
        match eye {
            Eye::Left => self.left,
            Eye::Right => self.right,
        }
    }

    /// Pairs a left-eye value with a right-eye value.
    pub fn new(left: T, right: T) -> (r: PerEye<T>)
        ensures
            r.left == left,
            r.right == right,
    {
        PerEye { left, right }
    }

    /// Borrows the value held for one eye.
    pub fn eye<'a>(&'a self, eye: Eye) -> (r: &'a T)
        ensures
            *r == self.spec_eye(eye),
    {
        match eye {
            Eye::Left => &self.left,
            Eye::Right => &self.right,
        }
    }

    /// Builds a new pair by applying a function to each eye's value in
    /// turn, left then right.
    pub fn map<U, F: Fn(Eye, &T) -> U>(&self, f: F) -> (r: PerEye<U>)
        requires
            call_requires(f, (Eye::Left, &self.left)),
            call_requires(f, (Eye::Right, &self.right)),
        ensures
            call_ensures(f, (Eye::Left, &self.left), r.left),
            call_ensures(f, (Eye::Right, &self.right), r.right),
    {
        PerEye { left: f(Eye::Left, &self.left), right: f(Eye::Right, &self.right) }
    }
}

} // verus!
