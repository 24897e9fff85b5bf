use vstd::prelude::*;

verus! {

/// The activation function of a layer.
///
/// A header stores each layer's activation as a raw code; [`Activation::from_code`]
/// is the only way from a code to a value of this type.
#[derive(Clone, Copy, Debug, PartialEq, Eq, Structural)]
pub enum Activation {
    /// `f(x) = max(0, x)`
    ReLU,
    /// `f(x) = clamp(x, 0, 1)`
    CReLU,
    /// `f(x) = clamp(x, 0, 1)^2`
    SCReLU,
    /// An approximation of `clamp(x, 0, 1)^2`.
    FastSCReLU,
    /// `f(x) = 1 / (1 + e^-x)`
    Sigmoid,
    /// `f(x) = tanh(x)`
    Tanh,
}

/// The code under which each activation is stored.
pub open spec fn code_of(a: Activation) -> u8 {
    match a {
        Activation::ReLU => 0,
        Activation::CReLU => 1,
        Activation::SCReLU => 2,
        Activation::FastSCReLU => 3,
        Activation::Sigmoid => 4,
        Activation::Tanh => 5,
    }
}

/// The activation that a stored code names, if any.
pub open spec fn activation_of(code: u8) -> Option<Activation> {
    if code == 0 {
        Some(Activation::ReLU)
    } else if code == 1 {
        Some(Activation::CReLU)
    } else if code == 2 {
        Some(Activation::SCReLU)
    } else if code == 3 {
        Some(Activation::FastSCReLU)
    } else if code == 4 {
        Some(Activation::Sigmoid)
    } else if code == 5 {
        Some(Activation::Tanh)
    } else {
        None
    }
}

impl Activation {
    /// The activation stored under `code`, or `None` for a code that names none.
    pub fn from_code(code: u8) -> (r: Option<Activation>)
        ensures
            r == activation_of(code),
            r is Some <==> code <= 5,
            r is Some ==> code_of(r->Some_0) == code,
    {
        match code {
            0 => Some(Activation::ReLU),
            1 => Some(Activation::CReLU),
            2 => Some(Activation::SCReLU),
            3 => Some(Activation::FastSCReLU),
            4 => Some(Activation::Sigmoid),
            5 => Some(Activation::Tanh),
            _ => None,
        }
    }

    /// The code under which this activation is stored.
    pub fn code(&self) -> (r: u8)
        ensures
            r == code_of(*self),
            activation_of(r) == Some(*self),
    {
        match self {
            Activation::ReLU => 0,
            Activation::CReLU => 1,
            Activation::SCReLU => 2,
            Activation::FastSCReLU => 3,
            Activation::Sigmoid => 4,
            Activation::Tanh => 5,
        }
    }
}

} // verus!
