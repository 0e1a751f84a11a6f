//! Cyclic multiplexing of the 20 LEDs of the encoder ring.
//!
//! Five pins drive the LEDs two at a time. One pin after the other takes
//! its turn as the driving pin; when all five have had theirs, the next of
//! four brightness cycles begins.

use vstd::prelude::*;

verus! {

/// Number of LEDs on the five pins.
pub const NUM_LEDS: u8 = 20;

/// Number of brightness cycles.
pub const NUM_CYCLES: u8 = 4;

pub enum PinState {
    TriState,
    High,
    Low,
}

pub struct PinDefinition {
    pin_id: u32,
}

/// A pin that can be put into one of the three pin states.
pub trait MatrixPinDriver {
    fn set_mode(&self, ps: PinState);
}

#[derive(Clone, Copy, PartialEq, Eq, Structural, Debug)]
pub enum MatrixPin {
    PinA,
    PinB,
    PinC,
    PinD,
    PinE,
}

impl MatrixPin {
    /// The pin whose turn comes next.
    pub open spec fn next(self) -> MatrixPin {
        match self {
            MatrixPin::PinA => MatrixPin::PinB,
            MatrixPin::PinB => MatrixPin::PinC,
            MatrixPin::PinC => MatrixPin::PinD,
            MatrixPin::PinD => MatrixPin::PinE,
            MatrixPin::PinE => MatrixPin::PinA,
        }
    }
}

/// One brightness cycle.
#[derive(Clone, Copy, PartialEq, Eq, Structural, Debug)]
pub struct Cycle {
    /// Duration of the cycle in ticks.
    pub duration: u8,
    /// Value an LED has to reach to be lit in the cycle.
    pub value: u8,
}

/// The brightness cycle `index`.
pub open spec fn cycle_value(index: u8) -> Cycle {
    if index == 0 {
        Cycle { duration: 1, value: 10 }
    } else if index == 1 {
        Cycle { duration: 2, value: 40 }
    } else if index == 2 {
        Cycle { duration: 8, value: 128 }
    } else {
        Cycle { duration: 16, value: 240 }
    }
}

#[verifier::when_used_as_spec(cycle_value)]
pub fn cycle(index: u8) -> (cycle: Cycle)
    requires
        index < NUM_CYCLES,
    ensures
        cycle == cycle_value(index),
{
    match index {
        0 => Cycle { duration: 1, value: 10 },
        1 => Cycle { duration: 2, value: 40 },
        2 => Cycle { duration: 8, value: 128 },
        _ => Cycle { duration: 16, value: 240 },
    }
}

/// Mathematical model of the matrix.
pub struct Matrix {
    /// Brightness of each LED.
    pub pin_state: Seq<u8>,
    /// The brightness cycle in progress.
    pub driving_cycle: u8,
    /// The pin whose turn it is.
    pub driving_pin: MatrixPin,
}

impl Matrix {
    pub open spec fn wf(self) -> bool {
        &&& self.pin_state.len() == NUM_LEDS
        &&& self.driving_cycle < NUM_CYCLES
    }

    /// All LEDs dark, first cycle, first pin.
    pub open spec fn initial() -> Matrix {
        Matrix {
            pin_state: Seq::new(NUM_LEDS as nat, |i: int| 0u8),
            driving_cycle: 0,
            driving_pin: MatrixPin::PinA,
        }
    }

    /// The matrix with LED `led` set to `value`; an LED that does not
    /// exist is ignored.
    pub open spec fn with_value(self, led: u8, value: u8) -> Matrix {
        if led < NUM_LEDS {
            Matrix { pin_state: self.pin_state.update(led as int, value), ..self }
        } else {
            self
        }
    }

    /// The matrix with all LEDs dark.
    pub open spec fn cleared(self) -> Matrix {
        Matrix { pin_state: Seq::new(NUM_LEDS as nat, |i: int| 0u8), ..self }
    }

    /// The matrix one step later: the next pin drives, and after the last
    /// pin the next cycle begins, the first one after the last.
    pub open spec fn stepped(self) -> Matrix {
        Matrix {
            driving_pin: self.driving_pin.next(),
            driving_cycle: if self.driving_pin == MatrixPin::PinE {
                if self.driving_cycle + 1 == NUM_CYCLES {
                    0
                } else {
                    (self.driving_cycle + 1) as u8
                }
            } else {
                self.driving_cycle
            },
            ..self
        }
    }

    /// The matrix `n` steps later.
    pub open spec fn stepped_by(self, n: nat) -> Matrix
        decreases n,
    {
        if n == 0 {
            self
        } else {
            self.stepped_by((n - 1) as nat).stepped()
        }
    }
}

/// Five steps bring the same pin back one cycle later, and twenty steps
/// bring the matrix back to where it was.
pub proof fn lemma_steps_come_round(matrix: Matrix)
    requires
        matrix.wf(),
    ensures
        matrix.stepped_by(5).driving_pin == matrix.driving_pin,
        matrix.stepped_by(5).driving_cycle == (matrix.driving_cycle + 1) % (NUM_CYCLES as int),
        matrix.stepped_by(20) == matrix,
{
    reveal_with_fuel(Matrix::stepped_by, 6);
    lemma_stepped_by_adds(matrix, 5, 5);
    lemma_stepped_by_adds(matrix, 10, 5);
    lemma_stepped_by_adds(matrix, 15, 5);
    let a = matrix.stepped_by(5);
    let b = matrix.stepped_by(10);
    let c = matrix.stepped_by(15);
    assert(a.stepped_by(5).driving_pin == a.driving_pin);
    assert(b.stepped_by(5).driving_pin == b.driving_pin);
    assert(c.stepped_by(5).driving_pin == c.driving_pin);
}

/// Steps add up.
pub proof fn lemma_stepped_by_adds(matrix: Matrix, m: nat, n: nat)
    ensures
        matrix.stepped_by(m + n) == matrix.stepped_by(m).stepped_by(n),
    decreases n,
{
    if n > 0 {
        lemma_stepped_by_adds(matrix, m, (n - 1) as nat);
    }
}

/// Every operation keeps the matrix well formed.
pub proof fn lemma_operations_preserve_wf(matrix: Matrix, led: u8, value: u8)
    requires
        matrix.wf(),
    ensures
        Matrix::initial().wf(),
        matrix.stepped().wf(),
        matrix.with_value(led, value).wf(),
        matrix.cleared().wf(),
{
}

pub struct LedMatrixDefinition {
    pin_state: [u8; 20],
    driving_cycle: u8,
    driving_pin: MatrixPin,
}

impl View for LedMatrixDefinition {
    type V = Matrix;

    closed spec fn view(&self) -> Matrix {
        Matrix {
            pin_state: self.pin_state@,
            driving_cycle: self.driving_cycle,
            driving_pin: self.driving_pin,
        }
    }
}

#[derive(Debug)]
pub enum MatrixError {
    Fault,
}

pub trait LedMatrix: Sized {
    type Error: core::fmt::Debug;

    fn new() -> Result<LedMatrixDefinition, Self::Error>;

    fn set_value(&mut self, led: u8, value: u8);

    fn clear(&mut self);

    fn step(&mut self);
}

impl LedMatrixDefinition {
    #[verifier::type_invariant]
    spec fn inv(self) -> bool {
        self@.wf()
    }

    /// The brightness cycle in progress.
    pub fn driving_cycle(&self) -> (cycle: u8)
        ensures
            cycle == self@.driving_cycle,
            cycle < NUM_CYCLES,
    {
        proof {
            use_type_invariant(self);
        }
        self.driving_cycle
    }

    /// The pin whose turn it is.
    pub fn driving_pin(&self) -> (pin: MatrixPin)
        ensures
            pin == self@.driving_pin,
    {
        self.driving_pin
    }

    /// Brightness of LED `led`.
    pub fn value(&self, led: u8) -> (value: u8)
        requires
            led < NUM_LEDS,
        ensures
            value == self@.pin_state[led as int],
    {
        self.pin_state[led as usize]
    }
}

impl LedMatrix for LedMatrixDefinition {
    type Error = MatrixError;

    /// A matrix with all LEDs dark, at the first pin of the first cycle.
    fn new() -> (matrix: Result<LedMatrixDefinition, Self::Error>)
        ensures
            matrix matches Ok(m) && m@ == Matrix::initial(),
    {
        let matrix = LedMatrixDefinition {
            pin_state: [0; 20],
            driving_cycle: 0,
            driving_pin: MatrixPin::PinA,
        };
        assert(matrix@.pin_state =~= Matrix::initial().pin_state);
        Ok(matrix)
    }

    fn set_value(&mut self, led: u8, value: u8)
        ensures
            final(self)@ == old(self)@.with_value(led, value),
    {
        proof {
            use_type_invariant(&*self);
        }
        if led >= NUM_LEDS {
            return ;
        }
        self.pin_state[led as usize] = value;
    }

    fn clear(&mut self)
        ensures
            final(self)@ == old(self)@.cleared(),
    {
        proof {
            use_type_invariant(&*self);
        }
        let mut i: usize = 0;
        while i < 20
            invariant
                i <= 20,
                self.driving_cycle == old(self).driving_cycle,
                self.driving_cycle < NUM_CYCLES,
                self.driving_pin == old(self).driving_pin,
                forall|j: int| 0 <= j < i ==> #[trigger] self.pin_state@[j] == 0,
            decreases 20 - i,
        {
            self.pin_state[i] = 0;
            i += 1;
        }
        assert(self@.pin_state =~= old(self)@.cleared().pin_state);
    }

    fn step(&mut self)
        ensures
            final(self)@ == old(self)@.stepped(),
    {
        proof {
            use_type_invariant(&*self);
        }
        match self.driving_pin {
            MatrixPin::PinA => {
                self.driving_pin = MatrixPin::PinB;
            },
            MatrixPin::PinB => {
                self.driving_pin = MatrixPin::PinC;
            },
            MatrixPin::PinC => {
                self.driving_pin = MatrixPin::PinD;
            },
            MatrixPin::PinD => {
                self.driving_pin = MatrixPin::PinE;
            },
            MatrixPin::PinE => {
                if self.driving_cycle + 1 == NUM_CYCLES {
                    self.driving_cycle = 0;
                } else {
                    self.driving_cycle += 1;
                }
                self.driving_pin = MatrixPin::PinA;
            },
        }
    }
}

} // verus!
