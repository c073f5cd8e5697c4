//! The control of the iterative anomaly solvers.
//!
//! Kepler's equation is solved by successive corrections. The arithmetic of
//! a correction is the caller's; whether another one is due is decided here,
//! one shape of orbit at a time, and never more than `ITERATION_CAP` times.
use crate::binary64::abs;
use crate::binary64::lemma_scaled_increases;
use crate::binary64::lt;
use crate::binary64::nan;
use crate::binary64::scaled;
use crate::orbit::OrbitError;
use crate::orbit::Type;
use vstd::prelude::*;

verus! {

/// The size of a correction at which a solver has settled: 1.0e-7.
pub const TOLERANCE: u64 = 0x3E7A_D7F2_9ABC_AF48;

/// The correction a solver starts from, 10.0: large, so that a first round is run.
pub const SENTINEL: u64 = 0x4024_0000_0000_0000;

/// The rounds a solver may run.
pub const ITERATION_CAP: u32 = 100;

/// What a solver is to do next.
#[derive(Debug, Clone, Copy, PartialEq, Eq, Structural)]
pub enum Step {
    /// The last correction was too large: run another round.
    Iterate,
    /// The anomaly has settled: take it as it is.
    Settled,
}

/// The solver of the eccentric anomaly for one orbit, between two rounds.
#[derive(Debug, Clone, Copy)]
pub struct Solver {
    shape: Type,
    rounds: u32,
}

impl Solver {
    #[verifier::type_invariant]
    spec fn wf(self) -> bool {
        self.shape != Type::Unknown && self.rounds <= ITERATION_CAP
    }

    /// The shape of the orbit being solved.
    pub closed spec fn spec_shape(&self) -> Type {
        self.shape
    }

    /// The rounds run so far.
    pub closed spec fn spec_rounds(&self) -> u32 {
        self.rounds
    }

    /// Whether an anomaly of this shape is found by iteration at all.
    ///
    /// On a circle the eccentric anomaly is the mean anomaly, and a straight
    /// line has none.
    pub open spec fn iterates(shape: Type) -> bool {
        shape == Type::Elliptical || shape == Type::Parabolic || shape == Type::Hyperbolic
    }

    /// Whether a correction of `delta` leaves an orbit of this shape unsettled.
    ///
    /// An ellipse looks at the size of the correction, a parabola and a
    /// hyperbola at the correction itself. A NaN settles every solver.
    pub open spec fn unsettled(shape: Type, delta: u64) -> bool {
        &&& Self::iterates(shape)
        &&& !nan(delta)
        &&& if shape == Type::Elliptical {
            scaled(delta) > scaled(TOLERANCE) || -scaled(delta) > scaled(TOLERANCE)
        } else {
            scaled(delta) > scaled(TOLERANCE)
        }
    }

    /// The starting correction leaves every iterated shape unsettled.
    pub proof fn lemma_sentinel_runs_a_round(shape: Type)
        requires
            Self::iterates(shape),
        ensures
            Self::unsettled(shape, SENTINEL),
    {
        lemma_scaled_increases(TOLERANCE, SENTINEL);
    }

    /// Starts a solver for an orbit of the given shape, unless it has none.
    pub fn new(shape: Type) -> (r: Result<Solver, OrbitError>)
        ensures
            r is Ok <==> shape != Type::Unknown,
            r matches Err(e) ==> e == OrbitError::InvalidOrbitShape,
            r matches Ok(s) ==> s.spec_shape() == shape && s.spec_rounds() == 0,
    {
        match shape {
            Type::Unknown => Err(OrbitError::InvalidOrbitShape),
            _ => Ok(Solver { shape, rounds: 0 }),
        }
    }

    /// The shape of the orbit being solved; never `Unknown`.
    #[verifier::when_used_as_spec(spec_shape)]
    pub fn shape(&self) -> (r: Type)
        ensures
            r == self.spec_shape(),
            r != Type::Unknown,
    {
        proof {
            use_type_invariant(self);
        }
        self.shape
    }

    /// The rounds run so far; never above `ITERATION_CAP`.
    #[verifier::when_used_as_spec(spec_rounds)]
    pub fn rounds(&self) -> (r: u32)
        ensures
            r == self.spec_rounds(),
            r <= ITERATION_CAP,
    {
        proof {
            use_type_invariant(self);
        }
        self.rounds
    }

    /// Decides, from the last correction `delta`, whether another round is due.
    ///
    /// A round is granted and counted while the correction is unsettled and
    /// rounds are left. An unsettled correction with no round left is a
    /// failure to converge.
    pub fn poll(&mut self, delta: u64) -> (r: Result<Step, OrbitError>)
        ensures
            final(self).spec_shape() == old(self).spec_shape(),
            r == Ok::<Step, OrbitError>(Step::Settled) <==> !Self::unsettled(
                old(self).spec_shape(),
                delta,
            ),
            r == Ok::<Step, OrbitError>(Step::Iterate) <==> Self::unsettled(
                old(self).spec_shape(),
                delta,
            ) && old(self).spec_rounds() < ITERATION_CAP,
            r == Err::<Step, OrbitError>(OrbitError::NonConvergence) <==> Self::unsettled(
                old(self).spec_shape(),
                delta,
            ) && old(self).spec_rounds() == ITERATION_CAP,
            r == Ok::<Step, OrbitError>(Step::Iterate) ==> final(self).spec_rounds() == old(
                self,
            ).spec_rounds() + 1,
            r != Ok::<Step, OrbitError>(Step::Iterate) ==> final(self).spec_rounds() == old(
                self,
            ).spec_rounds(),
    {
        proof {
            use_type_invariant(&*self);
        }
        let over: bool = match self.shape {
            Type::Elliptical => lt(TOLERANCE, abs(delta)),
            Type::Parabolic | Type::Hyperbolic => lt(TOLERANCE, delta),
            _ => false,
        };
        if !over {
            Ok(Step::Settled)
        } else if self.rounds < ITERATION_CAP {
            self.rounds = self.rounds + 1;
            Ok(Step::Iterate)
        } else {
            Err(OrbitError::NonConvergence)
        }
    }
}

} // verus!
