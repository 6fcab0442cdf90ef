//! Behavior programs ("genotypes"). Every creature owns a processor: the
//! private execution state of one genotype variant, including the creature's
//! energy counter. New variants are pure additions: the creature and world
//! engines only go through [`Processor`] and the [`Genotype`] capability
//! interface.

use vstd::prelude::*;

verus! {

/// Failure of genotype selection: the requested genome name is not known.
#[derive(Debug, PartialEq, Eq, Structural)]
pub enum BadGenomeError {
    InvalidGenome,
}

/// The capability every behavior program offers: advance the program by one
/// step. A step may mutate the processor's own state, including its energy
/// counter; each variant's implementation states what its steps do.
pub trait Genotype: Sized {
    /// The processor's energy counter, as a spec-level value.
    spec fn energy_spec(&self) -> i64;

    /// Execute the next instruction of the genomic code.
    fn tick(&mut self);
}

/// The scripted, deterministic variant: its program is empty, so a step
/// leaves the processor untouched.
#[derive(Debug, Copy, Clone, PartialEq, Eq, Structural)]
pub struct GilesGenotype {
    pub energy: i64,
}

impl Genotype for GilesGenotype {
    open spec fn energy_spec(&self) -> i64 {
        self.energy
    }

    fn tick(&mut self)
        ensures
            *final(self) == *old(self),
    {
    }
}

/// The stochastic variant: it draws nothing yet, so a step leaves the
/// processor untouched.
#[derive(Debug, Copy, Clone, PartialEq, Eq, Structural)]
pub struct RandomGenotype {
    pub energy: i64,
}

impl Genotype for RandomGenotype {
    open spec fn energy_spec(&self) -> i64 {
        self.energy
    }

    fn tick(&mut self)
        ensures
            *final(self) == *old(self),
    {
    }
}

/// A processor: the per-creature instance of one genotype variant. The
/// entity layer reads and writes only the energy counter; everything else is
/// the variant's own.
#[derive(Debug, Copy, Clone, PartialEq, Eq, Structural)]
pub enum Processor {
    Giles(GilesGenotype),
    Random(RandomGenotype),
}

impl Processor {
    /// The processor's energy counter.
    pub open spec fn energy_spec(self) -> i64 {
        match self {
            Processor::Giles(g) => g.energy,
            Processor::Random(r) => r.energy,
        }
    }

    /// The same variant with its energy counter replaced. For the built-in
    /// variants, which hold no state beyond their energy, this is also what
    /// a freshly constructed processor of the variant looks like.
    pub open spec fn with_energy_spec(self, e: i64) -> Processor {
        match self {
            Processor::Giles(_) => Processor::Giles(GilesGenotype { energy: e }),
            Processor::Random(_) => Processor::Random(RandomGenotype { energy: e }),
        }
    }

    /// Read the energy counter.
    pub fn energy(&self) -> (r: i64)
        ensures
            r == self.energy_spec(),
    {
        match self {
            Processor::Giles(g) => g.energy,
            Processor::Random(r) => r.energy,
        }
    }

    /// Overwrite the energy counter.
    pub fn set_energy(&mut self, e: i64)
        ensures
            *final(self) == old(self).with_energy_spec(e),
    {
        match self {
            Processor::Giles(g) => g.energy = e,
            Processor::Random(r) => r.energy = e,
        }
    }

    /// A fresh processor of the same variant, with the given starting
    /// energy.
    pub fn fresh(&self, e: i64) -> (r: Processor)
        ensures
            r == self.with_energy_spec(e),
    {
        match self {
            Processor::Giles(_) => Processor::Giles(GilesGenotype { energy: e }),
            Processor::Random(_) => Processor::Random(RandomGenotype { energy: e }),
        }
    }

    /// Execute the next instruction of the genomic code. Neither built-in
    /// variant's program touches its state.
    pub fn tick(&mut self)
        ensures
            *final(self) == *old(self),
    {
        match self {
            Processor::Giles(g) => g.tick(),
            Processor::Random(r) => r.tick(),
        }
    }
}

/// Construct a fresh processor from a genome name, with energy zero. Each
/// new genotype variant adds one arm here; an unrecognized name constructs
/// nothing and reports `InvalidGenome`.
pub fn new_genotype(which: &str) -> (r: Result<Processor, BadGenomeError>)
    ensures
        which@ == "giles"@ ==> r == Ok::<Processor, BadGenomeError>(
            Processor::Giles(GilesGenotype { energy: 0 }),
        ),
        which@ == "random"@ ==> r == Ok::<Processor, BadGenomeError>(
            Processor::Random(RandomGenotype { energy: 0 }),
        ),
        which@ != "giles"@ && which@ != "random"@ ==> r == Err::<Processor, BadGenomeError>(
            BadGenomeError::InvalidGenome,
        ),
{
    proof {
        reveal_strlit("giles");
        reveal_strlit("random");
        assert("giles"@.len() != "random"@.len());
    }
    let name = which.to_owned();
    if name == "giles".to_owned() {
        Ok(Processor::Giles(GilesGenotype { energy: 0 }))
    } else if name == "random".to_owned() {
        Ok(Processor::Random(RandomGenotype { energy: 0 }))
    } else {
        Err(BadGenomeError::InvalidGenome)
    }
}

} // verus!
