//! Prey individuals. Both species share one representation, tagged by
//! `Especie`; the species only changes the parameters in effect.
use vstd::prelude::*;
use crate::azar::FuenteAleatoria;
use crate::crecimiento::{peso_en_edad, peso_en_edad_mg};
use crate::especies::{
    edad_maxima, edad_reproductiva, crias_por_parto, peso_maximo, Especie, Sexo,
    PROBABILIDAD_ENFERMAR, PROBABILIDAD_NACER_MACHO,
};

verus! {

/// Most newborns any litter can hold.
pub const CRIAS_MAXIMAS: u32 = 6;

/// One prey individual.
#[derive(Debug, Clone, Copy)]
pub struct Presa {
    id: u32,
    especie: Especie,
    sexo: Sexo,
    edad_dias: u32,
    peso_mg: u64,
    viva: bool,
}

/// What an individual is, as seen from outside: its weight is not part of it,
/// being always the growth curve at its age.
pub struct PresaV {
    pub id: u32,
    pub especie: Especie,
    pub sexo: Sexo,
    pub edad: u32,
    pub viva: bool,
}

impl PresaV {
    /// Weight in milligrams: the species' growth curve at the current age.
    pub open spec fn peso(self) -> nat {
        peso_en_edad(self.especie, self.edad as nat)
    }

    /// The same individual one day older, before any death is decided.
    pub open spec fn un_dia_mayor(self) -> PresaV {
        PresaV { edad: (self.edad + 1) as u32, ..self }
    }

    /// Whether this individual may breed: a female of at least the species'
    /// reproductive age.
    pub open spec fn puede_reproducirse(self) -> bool {
        self.sexo == Sexo::Hembra && self.edad >= edad_reproductiva(self.especie)
    }

    /// A newborn of species `e` with identifier `id`.
    pub open spec fn es_cria(self, e: Especie, id: u32) -> bool {
        &&& self.id == id
        &&& self.especie == e
        &&& self.edad == 0
        &&& self.viva
    }
}

impl View for Presa {
    type V = PresaV;

    closed spec fn view(&self) -> PresaV {
        PresaV {
            id: self.id,
            especie: self.especie,
            sexo: self.sexo,
            edad: self.edad_dias,
            viva: self.viva,
        }
    }
}

/// Whether an individual of age `edad` dies today of old age or, when
/// `enferma`, of disease.
pub open spec fn muere(e: Especie, edad: u32, enferma: bool) -> bool {
    edad > edad_maxima(e) || enferma
}

impl Presa {
    #[verifier::type_invariant]
    spec fn peso_segun_edad(&self) -> bool {
        self.peso_mg == peso_en_edad(self.especie, self.edad_dias as nat)
    }

    /// A newborn of species `especie`: age 0, alive, of a random sex.
    pub fn nacer<R: FuenteAleatoria>(especie: Especie, id: u32, rng: &mut R) -> (p: Presa)
        ensures
            p@.es_cria(especie, id),
            final(rng).siempre_dice_no() == old(rng).siempre_dice_no(),
            old(rng).siempre_dice_no() ==> p@.sexo == Sexo::Hembra,
    {
        let macho = rng.probabilidad(PROBABILIDAD_NACER_MACHO.0, PROBABILIDAD_NACER_MACHO.1);
        Presa::nacer_con(especie, id, macho)
    }

    /// A newborn of species `especie`: age 0, alive, male exactly when
    /// `macho`.
    pub fn nacer_con(especie: Especie, id: u32, macho: bool) -> (p: Presa)
        ensures
            p@.es_cria(especie, id),
            p@.sexo == if macho {
                Sexo::Macho
            } else {
                Sexo::Hembra
            },
    {
        let sexo = if macho {
            Sexo::Macho
        } else {
            Sexo::Hembra
        };
        Presa { id, especie, sexo, edad_dias: 0, peso_mg: peso_en_edad_mg(especie, 0), viva: true }
    }

    pub fn id(&self) -> (r: u32)
        ensures
            r == self@.id,
    {
        self.id
    }

    pub fn especie(&self) -> (r: Especie)
        ensures
            r == self@.especie,
    {
        self.especie
    }

    pub fn sexo(&self) -> (r: Sexo)
        ensures
            r == self@.sexo,
    {
        self.sexo
    }

    pub fn edad(&self) -> (r: u32)
        ensures
            r == self@.edad,
    {
        self.edad_dias
    }

    /// Weight in milligrams.
    pub fn peso(&self) -> (r: u64)
        ensures
            r == self@.peso(),
            1 <= r <= peso_maximo(self@.especie),
    {
        proof {
            use_type_invariant(self);
            crate::crecimiento::lema_peso_en_edad(self.especie, self.edad_dias as nat, self.edad_dias as nat);
        }
        self.peso_mg
    }

    pub fn esta_viva(&self) -> (r: bool)
        ensures
            r == self@.viva,
    {
        self.viva
    }

    /// One day older: the weight follows the new age, and the individual dies
    /// when the new age exceeds the species' maximum or when `enferma`.
    /// Death is permanent.
    pub fn envejecer_con(&mut self, enferma: bool)
        requires
            old(self)@.edad < u32::MAX,
        ensures
            final(self)@ == (PresaV {
                viva: old(self)@.viva && !muere(old(self)@.especie, (old(self)@.edad + 1) as u32, enferma),
                ..old(self)@.un_dia_mayor()
            }),
    {
        let edad = self.edad_dias + 1;
        let muerta = edad > self.especie.edad_maxima_dias() || enferma;
        *self = Presa {
            id: self.id,
            especie: self.especie,
            sexo: self.sexo,
            edad_dias: edad,
            peso_mg: peso_en_edad_mg(self.especie, edad),
            viva: self.viva && !muerta,
        };
    }

    /// One day older, with the daily chance of disease drawn from `rng` (the
    /// draw is only made for an individual that has not outlived its
    /// species' maximum age).
    pub fn envejecer<R: FuenteAleatoria>(&mut self, rng: &mut R)
        requires
            old(self)@.edad < u32::MAX,
        ensures
            final(rng).siempre_dice_no() == old(rng).siempre_dice_no(),
            final(self)@ == (PresaV { viva: final(self)@.viva, ..old(self)@.un_dia_mayor() }),
            final(self)@.viva ==> old(self)@.viva && !muere(old(self)@.especie, (old(self)@.edad + 1) as u32, false),
            old(rng).siempre_dice_no() ==> final(self)@.viva == (old(self)@.viva && !muere(
                old(self)@.especie,
                (old(self)@.edad + 1) as u32,
                false,
            )),
    {
        let enferma = if self.edad_dias + 1 > self.especie.edad_maxima_dias() {
            false
        } else {
            rng.probabilidad(PROBABILIDAD_ENFERMAR.0, PROBABILIDAD_ENFERMAR.1)
        };
        self.envejecer_con(enferma);
    }

    /// The litter once the day's draws are known: an individual that may
    /// breed and `pare` gives birth to `cantidad` newborns, numbered from
    /// `next_id` on, each of a sex drawn from `rng`; otherwise there is no
    /// litter and `rng` is not touched.
    pub fn camada<R: FuenteAleatoria>(&self, pare: bool, cantidad: u32, rng: &mut R, next_id: &mut u32) -> (crias: Vec<Presa>)
        requires
            cantidad <= CRIAS_MAXIMAS,
            *old(next_id) + cantidad <= u32::MAX,
        ensures
            crias.len() == if self@.puede_reproducirse() && pare {
                cantidad
            } else {
                0
            },
            crias.len() == 0 ==> *final(rng) == *old(rng),
            final(rng).siempre_dice_no() == old(rng).siempre_dice_no(),
            *final(next_id) == *old(next_id) + crias.len(),
            forall|k: int|
                0 <= k < crias.len() ==> (#[trigger] crias@[k])@.es_cria(
                    self@.especie,
                    (*old(next_id) + k) as u32,
                ),
    {
        let mut crias: Vec<Presa> = Vec::new();
        if !(self.sexo == Sexo::Hembra && self.edad_dias >= self.especie.edad_reproductiva_dias() && pare) {
            return crias;
        }
        let ghost inicio = *old(next_id);
        let mut k: u32 = 0;
        while k < cantidad
            invariant
                k <= cantidad <= CRIAS_MAXIMAS,
                inicio + cantidad <= u32::MAX,
                *next_id == inicio + k,
                crias.len() == k,
                k == 0 ==> *rng == *old(rng),
                rng.siempre_dice_no() == old(rng).siempre_dice_no(),
                forall|j: int|
                    0 <= j < k ==> (#[trigger] crias@[j])@.es_cria(self@.especie, (inicio + j) as u32),
            decreases cantidad - k,
        {
            let cria = Presa::nacer(self.especie, *next_id, rng);
            crias.push(cria);
            *next_id = *next_id + 1;
            k = k + 1;
        }
        crias
    }

    /// The day's litter. An eligible female gives birth with the species'
    /// daily chance; the litter size is then drawn from the species' range
    /// (see `camada`). Nothing is drawn for an individual that cannot breed.
    pub fn reproducirse<R: FuenteAleatoria>(&self, rng: &mut R, next_id: &mut u32) -> (crias: Vec<Presa>)
        requires
            *old(next_id) + CRIAS_MAXIMAS <= u32::MAX,
        ensures
            final(rng).siempre_dice_no() == old(rng).siempre_dice_no(),
            *final(next_id) == *old(next_id) + crias.len(),
            crias.len() == 0 || crias_por_parto(self@.especie).0 <= crias.len() <= crias_por_parto(
                self@.especie,
            ).1,
            !self@.puede_reproducirse() ==> crias.len() == 0 && *final(rng) == *old(rng),
            old(rng).siempre_dice_no() ==> crias.len() == 0,
            forall|k: int|
                0 <= k < crias.len() ==> (#[trigger] crias@[k])@.es_cria(
                    self@.especie,
                    (*old(next_id) + k) as u32,
                ),
    {
        if !(self.sexo == Sexo::Hembra && self.edad_dias >= self.especie.edad_reproductiva_dias()) {
            return Vec::new();
        }
        let (num, den) = self.especie.tasa_reproduccion_diaria();
        let pare = rng.probabilidad(num, den);
        let cantidad = if pare {
            let (min, max) = self.especie.crias_por_parto();
            rng.rango(min, max)
        } else {
            0
        };
        self.camada(pare, cantidad, rng, next_id)
    }
}

/// Builds rabbits.
pub struct Conejo;

impl Conejo {
    /// A newborn rabbit with identifier `id` and a random sex.
    pub fn new<R: FuenteAleatoria>(id: u32, rng: &mut R) -> (p: Presa)
        ensures
            p@.es_cria(Especie::Conejo, id),
            final(rng).siempre_dice_no() == old(rng).siempre_dice_no(),
            old(rng).siempre_dice_no() ==> p@.sexo == Sexo::Hembra,
    {
        Presa::nacer(Especie::Conejo, id, rng)
    }
}

/// Builds goats.
pub struct Cabra;

impl Cabra {
    /// A newborn goat with identifier `id` and a random sex.
    pub fn new<R: FuenteAleatoria>(id: u32, rng: &mut R) -> (p: Presa)
        ensures
            p@.es_cria(Especie::Cabra, id),
            final(rng).siempre_dice_no() == old(rng).siempre_dice_no(),
            old(rng).siempre_dice_no() ==> p@.sexo == Sexo::Hembra,
    {
        Presa::nacer(Especie::Cabra, id, rng)
    }
}

} // verus!
