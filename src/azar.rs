//! Sources of randomness. Every random event of the simulation is drawn from
//! a source handed in by the caller, never from a global generator.
use vstd::prelude::*;
use rand::rngs::StdRng;

verus! {

#[verifier::external_type_specification]
#[verifier::external_body]
pub struct ExStdRng(StdRng);

/// What the simulation asks of a random source.
pub trait FuenteAleatoria {
    /// Holds of a source that answers "no" to every yes/no draw.
    spec fn siempre_dice_no(&self) -> bool;

    /// `true` with chance `numerador / denominador`.
    fn probabilidad(&mut self, numerador: u32, denominador: u32) -> (r: bool)
        requires
            0 < denominador,
            numerador <= denominador,
        ensures
            final(self).siempre_dice_no() == old(self).siempre_dice_no(),
            old(self).siempre_dice_no() ==> !r,
            numerador == 0 ==> !r,
    ;

    /// A value of the inclusive range `[min, max]`.
    fn rango(&mut self, min: u32, max: u32) -> (r: u32)
        requires
            min <= max,
        ensures
            final(self).siempre_dice_no() == old(self).siempre_dice_no(),
            min <= r <= max,
    ;

    /// One of the given values.
    fn elegir(&mut self, opciones: &Vec<usize>) -> (r: usize)
        requires
            opciones.len() > 0,
        ensures
            final(self).siempre_dice_no() == old(self).siempre_dice_no(),
            opciones@.contains(r),
    ;
}

/// A seeded pseudo-random generator: the same seed replays the same run.
pub struct FuenteSemilla {
    rng: StdRng,
}

/// Relies on rand's `SeedableRng::seed_from_u64` for `StdRng`: a generator
/// built from a 64-bit seed.
#[verifier::external_body]
fn generador_con_semilla(semilla: u64) -> StdRng {
    <StdRng as rand::SeedableRng>::seed_from_u64(semilla)
}

/// Relies on rand's `Rng::gen_ratio`: `true` with chance
/// `numerador / denominador`, never when `numerador` is 0, always when the
/// two are equal; it panics when `denominador` is 0 or below `numerador`.
#[verifier::external_body]
fn sortear_razon(rng: &mut StdRng, numerador: u32, denominador: u32) -> (r: bool)
    requires
        0 < denominador,
        numerador <= denominador,
    ensures
        numerador == 0 ==> !r,
        numerador == denominador ==> r,
{
    rand::Rng::gen_ratio(rng, numerador, denominador)
}

/// Relies on rand's `Rng::gen_range` over an inclusive range: a value within
/// it; it panics on an empty range.
#[verifier::external_body]
fn sortear_rango(rng: &mut StdRng, min: u32, max: u32) -> (r: u32)
    requires
        min <= max,
    ensures
        min <= r <= max,
{
    rand::Rng::gen_range(rng, min..=max)
}

/// Relies on rand's `SliceRandom::choose`: `None` for an empty slice, else
/// one of its elements.
#[verifier::external_body]
fn sortear_elemento(rng: &mut StdRng, opciones: &Vec<usize>) -> (r: Option<usize>)
    ensures
        opciones@.len() == 0 <==> r is None,
        r matches Some(x) ==> opciones@.contains(x),
{
    rand::seq::SliceRandom::choose(opciones.as_slice(), rng).copied()
}

impl FuenteSemilla {
    pub fn new(semilla: u64) -> (r: FuenteSemilla)
        ensures
            !r.siempre_dice_no(),
    {
        FuenteSemilla { rng: generador_con_semilla(semilla) }
    }
}

impl FuenteAleatoria for FuenteSemilla {
    open spec fn siempre_dice_no(&self) -> bool {
        false
    }

    fn probabilidad(&mut self, numerador: u32, denominador: u32) -> (r: bool) {
        sortear_razon(&mut self.rng, numerador, denominador)
    }

    fn rango(&mut self, min: u32, max: u32) -> (r: u32) {
        sortear_rango(&mut self.rng, min, max)
    }

    fn elegir(&mut self, opciones: &Vec<usize>) -> (r: usize) {
        match sortear_elemento(&mut self.rng, opciones) {
            Some(x) => x,
            None => opciones[0],
        }
    }
}

/// A source with no chance in it: every yes/no draw is "no", every range
/// gives its lower end, and a choice takes the option at position
/// `eleccion` (counted modulo the number of options).
pub struct FuenteFija {
    pub eleccion: usize,
}

impl FuenteAleatoria for FuenteFija {
    open spec fn siempre_dice_no(&self) -> bool {
        true
    }

    fn probabilidad(&mut self, numerador: u32, denominador: u32) -> (r: bool) {
        false
    }

    fn rango(&mut self, min: u32, max: u32) -> (r: u32) {
        min
    }

    fn elegir(&mut self, opciones: &Vec<usize>) -> (r: usize) {
        opciones[self.eleccion % opciones.len()]
    }
}

} // verus!
