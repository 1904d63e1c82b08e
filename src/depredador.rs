//! The single predator: it pays a daily food cost out of its reserve, and
//! refills it by culling the heaviest huntable prey.
use vstd::prelude::*;
use crate::azar::FuenteAleatoria;
use crate::especies::{edad_sacrificio, PESO_MAXIMO_PRESA_MG};
use crate::presas::{Presa, PresaV};

verus! {

pub const DEPREDADOR_RESERVA_INICIAL_MG: u64 = 900_000_000;
pub const DEPREDADOR_CONSUMO_MINIMO_DIARIO_MG: u64 = 3_000_000;
pub const DEPREDADOR_CONSUMO_OPTIMO_DIARIO_MG: u64 = 5_000_000;
/// Weights this close to the heaviest huntable one count as tied with it.
pub const BANDA_EMPATE_MG: u64 = 10_000;

/// The predator. Its reserve is a count of milligrams, so never negative.
#[derive(Debug, Clone, Copy)]
pub struct Depredador {
    pub reserva_comida_mg: u64,
    pub vivo: bool,
}

/// The individuals of a population as values.
pub open spec fn vista(s: Seq<Presa>) -> Seq<PresaV> {
    s.map_values(|p: Presa| p@)
}

/// Alive and old enough to be culled.
pub open spec fn cazable(p: PresaV) -> bool {
    p.viva && p.edad >= edad_sacrificio(p.especie)
}

pub open spec fn hay_cazable(s: Seq<PresaV>) -> bool {
    exists|i: int| 0 <= i < s.len() && #[trigger] cazable(s[i])
}

/// The heaviest weight among the huntable individuals (0 when there is none).
pub open spec fn peso_max_cazable(s: Seq<PresaV>) -> nat
    decreases s.len(),
{
    if s.len() == 0 {
        0
    } else {
        let m = peso_max_cazable(s.drop_last());
        if cazable(s.last()) && s.last().peso() > m {
            s.last().peso()
        } else {
            m
        }
    }
}

/// Individual `i` is huntable and within the tie band of the heaviest.
pub open spec fn empatada(s: Seq<PresaV>, i: int) -> bool {
    &&& 0 <= i < s.len()
    &&& cazable(s[i])
    &&& s[i].peso() + BANDA_EMPATE_MG >= peso_max_cazable(s)
}

/// The daily food cost: the optimal ration when the reserve covers it, else
/// the minimal one, else the predator starves.
pub open spec fn tras_consumo(d: Depredador) -> Depredador {
    if d.reserva_comida_mg >= DEPREDADOR_CONSUMO_OPTIMO_DIARIO_MG {
        Depredador { reserva_comida_mg: (d.reserva_comida_mg - DEPREDADOR_CONSUMO_OPTIMO_DIARIO_MG) as u64, ..d }
    } else if d.reserva_comida_mg >= DEPREDADOR_CONSUMO_MINIMO_DIARIO_MG {
        Depredador { reserva_comida_mg: (d.reserva_comida_mg - DEPREDADOR_CONSUMO_MINIMO_DIARIO_MG) as u64, ..d }
    } else {
        Depredador { vivo: false, ..d }
    }
}

/// The reserve never goes below zero: the daily cost is taken only when the
/// reserve covers it, and a hunt only adds to it.
pub proof fn ley_reserva_no_negativa(d: Depredador)
    ensures
        tras_consumo(d).reserva_comida_mg as int == d.reserva_comida_mg as int
            - DEPREDADOR_CONSUMO_OPTIMO_DIARIO_MG as int || tras_consumo(d).reserva_comida_mg as int
            == d.reserva_comida_mg as int - DEPREDADOR_CONSUMO_MINIMO_DIARIO_MG as int
            || tras_consumo(d).reserva_comida_mg == d.reserva_comida_mg,
        tras_consumo(d).reserva_comida_mg <= d.reserva_comida_mg,
{
}

/// No huntable individual outweighs the heaviest, and some reaches it
/// whenever there is a huntable one.
pub proof fn lema_peso_max(s: Seq<PresaV>)
    ensures
        forall|i: int| 0 <= i < s.len() && cazable(s[i]) ==> #[trigger] s[i].peso() <= peso_max_cazable(s),
        hay_cazable(s) ==> exists|i: int| 0 <= i < s.len() && cazable(s[i]) && #[trigger] s[i].peso() == peso_max_cazable(s),
        !hay_cazable(s) ==> peso_max_cazable(s) == 0,
    decreases s.len(),
{
    if s.len() > 0 {
        let t = s.drop_last();
        lema_peso_max(t);
        assert forall|i: int| 0 <= i < s.len() && cazable(s[i]) implies #[trigger] s[i].peso() <= peso_max_cazable(s) by {
            if i < s.len() - 1 {
                assert(t[i] == s[i]);
            }
        }
        if hay_cazable(s) {
            if hay_cazable(t) {
                let j = choose|j: int| 0 <= j < t.len() && cazable(t[j]) && #[trigger] t[j].peso() == peso_max_cazable(t);
                assert(s[j] == t[j]);
                if !(cazable(s.last()) && s.last().peso() > peso_max_cazable(t)) {
                    assert(s[j].peso() == peso_max_cazable(s));
                } else {
                    assert(s[s.len() - 1].peso() == peso_max_cazable(s));
                }
            } else {
                let j = choose|j: int| 0 <= j < s.len() && #[trigger] cazable(s[j]);
                if j < s.len() - 1 {
                    assert(t[j] == s[j]);
                    assert(false);
                }
                assert(s[s.len() - 1].peso() == peso_max_cazable(s));
            }
        } else {
            assert forall|j: int| 0 <= j < t.len() implies !#[trigger] cazable(t[j]) by {
                assert(t[j] == s[j]);
            }
            assert(!cazable(s[s.len() - 1]));
        }
    }
}

/// Two huntable individuals of the very same weight, the heaviest there
/// is, are both in the tie band, and culling either leaves the other.
pub proof fn lema_empate(s: Seq<PresaV>, a: int, b: int)
    requires
        0 <= a < s.len(),
        0 <= b < s.len(),
        a != b,
        cazable(s[a]),
        cazable(s[b]),
        s[a].peso() == s[b].peso(),
        forall|i: int| 0 <= i < s.len() && cazable(s[i]) ==> #[trigger] s[i].peso() <= s[a].peso(),
    ensures
        empatada(s, a),
        empatada(s, b),
        s.remove(a).contains(s[b]),
{
    lema_peso_max(s);
    let j = choose|j: int| 0 <= j < s.len() && cazable(s[j]) && #[trigger] s[j].peso() == peso_max_cazable(s);
    assert(s[j].peso() <= s[a].peso());
    if b < a {
        assert(s.remove(a)[b] == s[b]);
    } else {
        assert(s.remove(a)[b - 1] == s[b]);
    }
}

/// Indices, in increasing order, of the individuals the predator may pick:
/// the huntable ones within the tie band of the heaviest.
pub fn candidatos_caza(presas: &Vec<Presa>) -> (r: Vec<usize>)
    ensures
        forall|k: int| 0 <= k < r.len() ==> empatada(vista(presas@), #[trigger] r@[k] as int),
        forall|i: int| empatada(vista(presas@), i) ==> r@.contains(i as usize),
        forall|k: int, l: int| 0 <= k < l < r.len() ==> r@[k] < r@[l],
        r.len() == 0 <==> !hay_cazable(vista(presas@)),
{
    let ghost s = vista(presas@);
    let mut maximo: u64 = 0;
    let mut i: usize = 0;
    while i < presas.len()
        invariant
            i <= presas.len(),
            s == vista(presas@),
            maximo == peso_max_cazable(s.take(i as int)),
        decreases presas.len() - i,
    {
        let p = &presas[i];
        let edad_minima = p.especie().edad_sacrificio_dias();
        let peso = p.peso();
        proof {
            assert(s.take(i + 1).drop_last() =~= s.take(i as int));
            assert(s[i as int] == p@);
        }
        if p.esta_viva() && p.edad() >= edad_minima && peso > maximo {
            maximo = peso;
        }
        i = i + 1;
    }
    proof {
        assert(s.take(presas.len() as int) =~= s);
    }
    let mut r: Vec<usize> = Vec::new();
    let mut i: usize = 0;
    while i < presas.len()
        invariant
            i <= presas.len(),
            s == vista(presas@),
            maximo == peso_max_cazable(s),
            forall|k: int| 0 <= k < r.len() ==> empatada(s, #[trigger] r@[k] as int) && r@[k] < i,
            forall|j: int| 0 <= j < i && empatada(s, j) ==> r@.contains(j as usize),
            forall|k: int, l: int| 0 <= k < l < r.len() ==> r@[k] < r@[l],
        decreases presas.len() - i,
    {
        let p = &presas[i];
        let edad_minima = p.especie().edad_sacrificio_dias();
        let peso = p.peso();
        let ghost r_antes = r@;
        proof {
            assert(s[i as int] == p@);
        }
        if p.esta_viva() && p.edad() >= edad_minima && peso as u128 + BANDA_EMPATE_MG as u128 >= maximo as u128 {
            r.push(i);
            proof {
                assert(r@[r.len() - 1] == i);
            }
        }
        proof {
            assert forall|j: int| 0 <= j < i + 1 && empatada(s, j) implies r@.contains(j as usize) by {
                if j == i {
                    assert(r@[r.len() - 1] == i);
                } else {
                    let k = choose|k: int| 0 <= k < r_antes.len() && r_antes[k] == j as usize;
                    assert(r@[k] == r_antes[k]);
                }
            }
        }
        i = i + 1;
    }
    proof {
        lema_peso_max(s);
        if hay_cazable(s) {
            let j = choose|j: int| 0 <= j < s.len() && cazable(s[j]) && #[trigger] s[j].peso() == peso_max_cazable(s);
            assert(empatada(s, j));
            assert(r@.contains(j as usize));
        }
        if r.len() > 0 {
            assert(empatada(s, r@[0] as int));
        }
    }
    r
}

impl Depredador {
    pub fn new(reserva_inicial_mg: u64) -> (d: Depredador)
        ensures
            d.reserva_comida_mg == reserva_inicial_mg,
            d.vivo,
    {
        Depredador { reserva_comida_mg: reserva_inicial_mg, vivo: true }
    }

    /// Pays the day's food cost; starvation is the only way the predator dies.
    pub fn consumir_reserva(&mut self)
        ensures
            *final(self) == tras_consumo(*old(self)),
    {
        if self.reserva_comida_mg >= DEPREDADOR_CONSUMO_OPTIMO_DIARIO_MG {
            self.reserva_comida_mg = self.reserva_comida_mg - DEPREDADOR_CONSUMO_OPTIMO_DIARIO_MG;
        } else if self.reserva_comida_mg >= DEPREDADOR_CONSUMO_MINIMO_DIARIO_MG {
            self.reserva_comida_mg = self.reserva_comida_mg - DEPREDADOR_CONSUMO_MINIMO_DIARIO_MG;
        } else {
            self.vivo = false;
        }
    }

    /// Culls the individual at position `i`: it leaves `presas` and its
    /// weight is added to the reserve.
    pub fn cazar_en(&mut self, presas: &mut Vec<Presa>, i: usize)
        requires
            i < old(presas).len(),
            old(self).reserva_comida_mg <= u64::MAX - PESO_MAXIMO_PRESA_MG,
        ensures
            final(presas)@ == old(presas)@.remove(i as int),
            final(self).reserva_comida_mg == old(self).reserva_comida_mg + vista(old(presas)@)[i as int].peso(),
            final(self).vivo == old(self).vivo,
    {
        let presa = presas.remove(i);
        let peso = presa.peso();
        proof {
            assert(vista(old(presas)@)[i as int] == presa@);
        }
        self.reserva_comida_mg = self.reserva_comida_mg + peso;
    }

    /// Culls at most one individual. A living predator with huntable prey
    /// takes one of the individuals tied for the heaviest (the choice drawn
    /// from `rng` among `candidatos_caza`), and culls it with `cazar_en`.
    /// Otherwise nothing changes and nothing is drawn.
    pub fn cazar<R: FuenteAleatoria>(&mut self, presas: &mut Vec<Presa>, rng: &mut R)
        requires
            old(self).reserva_comida_mg <= u64::MAX - PESO_MAXIMO_PRESA_MG,
        ensures
            final(rng).siempre_dice_no() == old(rng).siempre_dice_no(),
            !old(self).vivo || !hay_cazable(vista(old(presas)@)) ==> *final(self) == *old(self)
                && final(presas)@ == old(presas)@ && *final(rng) == *old(rng),
            old(self).vivo && hay_cazable(vista(old(presas)@)) ==> exists|i: int|
                empatada(vista(old(presas)@), i) && final(presas)@ == old(presas)@.remove(i)
                    && final(self).reserva_comida_mg == old(self).reserva_comida_mg + (#[trigger] vista(
                    old(presas)@,
                )[i]).peso() && final(self).vivo,
    {
        if !self.vivo {
            return;
        }
        let candidatos = candidatos_caza(presas);
        if candidatos.len() == 0 {
            return;
        }
        let i = rng.elegir(&candidatos);
        proof {
            let k = choose|k: int| 0 <= k < candidatos.len() && candidatos@[k] == i;
            assert(empatada(vista(presas@), candidatos@[k] as int));
        }
        self.cazar_en(presas, i);
    }
}

} // verus!
