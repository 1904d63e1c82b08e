use vstd::prelude::*;

verus! {

/// Sex of an individual, chosen at birth.
#[derive(Debug, Clone, Copy, PartialEq, Eq, Structural)]
pub enum Sexo {
    Macho,
    Hembra,
}

/// The two prey species.
#[derive(Debug, Clone, Copy, PartialEq, Eq, Structural)]
pub enum Especie {
    Conejo,
    Cabra,
}

pub const CONEJO_EDAD_MAXIMA_DIAS: u32 = 1825;
pub const CONEJO_EDAD_REPRODUCTIVA_DIAS: u32 = 100;
pub const CONEJO_EDAD_SACRIFICIO_DIAS: u32 = 150;
/// Daily chance of a litter, as numerator and denominator (5%).
pub const CONEJO_TASA_REPRODUCCION: (u32, u32) = (1, 20);
pub const CONEJO_CRIAS_POR_PARTO: (u32, u32) = (3, 6);
pub const CONEJO_PESO_MAXIMO_MG: u64 = 5_000_000;

pub const CABRA_EDAD_MAXIMA_DIAS: u32 = 5475;
pub const CABRA_EDAD_REPRODUCTIVA_DIAS: u32 = 300;
pub const CABRA_EDAD_SACRIFICIO_DIAS: u32 = 250;
/// Daily chance of a litter, as numerator and denominator (1%).
pub const CABRA_TASA_REPRODUCCION: (u32, u32) = (1, 100);
pub const CABRA_CRIAS_POR_PARTO: (u32, u32) = (1, 2);
pub const CABRA_PESO_MAXIMO_MG: u64 = 75_000_000;

/// Daily chance of dying of disease, shared by both species (0.1%).
pub const PROBABILIDAD_ENFERMAR: (u32, u32) = (1, 1000);
/// Chance that a newborn is male (50%).
pub const PROBABILIDAD_NACER_MACHO: (u32, u32) = (1, 2);

/// The heaviest weight any prey can reach.
pub const PESO_MAXIMO_PRESA_MG: u64 = 75_000_000;

pub open spec fn edad_maxima(e: Especie) -> u32 {
    match e {
        Especie::Conejo => CONEJO_EDAD_MAXIMA_DIAS,
        Especie::Cabra => CABRA_EDAD_MAXIMA_DIAS,
    }
}

pub open spec fn edad_reproductiva(e: Especie) -> u32 {
    match e {
        Especie::Conejo => CONEJO_EDAD_REPRODUCTIVA_DIAS,
        Especie::Cabra => CABRA_EDAD_REPRODUCTIVA_DIAS,
    }
}

pub open spec fn edad_sacrificio(e: Especie) -> u32 {
    match e {
        Especie::Conejo => CONEJO_EDAD_SACRIFICIO_DIAS,
        Especie::Cabra => CABRA_EDAD_SACRIFICIO_DIAS,
    }
}

pub open spec fn tasa_reproduccion(e: Especie) -> (u32, u32) {
    match e {
        Especie::Conejo => CONEJO_TASA_REPRODUCCION,
        Especie::Cabra => CABRA_TASA_REPRODUCCION,
    }
}

pub open spec fn crias_por_parto(e: Especie) -> (u32, u32) {
    match e {
        Especie::Conejo => CONEJO_CRIAS_POR_PARTO,
        Especie::Cabra => CABRA_CRIAS_POR_PARTO,
    }
}

pub open spec fn peso_maximo(e: Especie) -> u64 {
    match e {
        Especie::Conejo => CONEJO_PESO_MAXIMO_MG,
        Especie::Cabra => CABRA_PESO_MAXIMO_MG,
    }
}

impl Especie {
    pub fn edad_maxima_dias(&self) -> (r: u32)
        ensures
            r == edad_maxima(*self),
    {
        match self {
            Especie::Conejo => CONEJO_EDAD_MAXIMA_DIAS,
            Especie::Cabra => CABRA_EDAD_MAXIMA_DIAS,
        }
    }

    pub fn edad_reproductiva_dias(&self) -> (r: u32)
        ensures
            r == edad_reproductiva(*self),
    {
        match self {
            Especie::Conejo => CONEJO_EDAD_REPRODUCTIVA_DIAS,
            Especie::Cabra => CABRA_EDAD_REPRODUCTIVA_DIAS,
        }
    }

    pub fn edad_sacrificio_dias(&self) -> (r: u32)
        ensures
            r == edad_sacrificio(*self),
    {
        match self {
            Especie::Conejo => CONEJO_EDAD_SACRIFICIO_DIAS,
            Especie::Cabra => CABRA_EDAD_SACRIFICIO_DIAS,
        }
    }

    pub fn tasa_reproduccion_diaria(&self) -> (r: (u32, u32))
        ensures
            r == tasa_reproduccion(*self),
    {
        match self {
            Especie::Conejo => CONEJO_TASA_REPRODUCCION,
            Especie::Cabra => CABRA_TASA_REPRODUCCION,
        }
    }

    pub fn crias_por_parto(&self) -> (r: (u32, u32))
        ensures
            r == crias_por_parto(*self),
    {
        match self {
            Especie::Conejo => CONEJO_CRIAS_POR_PARTO,
            Especie::Cabra => CABRA_CRIAS_POR_PARTO,
        }
    }

    pub fn peso_maximo_mg(&self) -> (r: u64)
        ensures
            r == peso_maximo(*self),
            r <= PESO_MAXIMO_PRESA_MG,
    {
        match self {
            Especie::Conejo => CONEJO_PESO_MAXIMO_MG,
            Especie::Cabra => CABRA_PESO_MAXIMO_MG,
        }
    }
}

} // verus!
