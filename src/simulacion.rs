//! The simulation state and the day-advance that orchestrates everything.
use vstd::prelude::*;
use crate::azar::FuenteAleatoria;
use crate::depredador::{
    cazable, empatada, hay_cazable, tras_consumo, vista, Depredador,
    DEPREDADOR_CONSUMO_OPTIMO_DIARIO_MG, DEPREDADOR_RESERVA_INICIAL_MG,
};
use crate::especies::{
    edad_maxima, edad_sacrificio, Especie, PESO_MAXIMO_PRESA_MG, PROBABILIDAD_ENFERMAR,
};
use crate::presas::{muere, Cabra, Conejo, Presa, PresaV, CRIAS_MAXIMAS};

verus! {

pub const N_CONEJOS_INICIAL: u32 = 60;
pub const N_CABRAS_INICIAL: u32 = 25;

/// The whole state of a run.
pub struct Simulacion {
    dia: u32,
    presas: Vec<Presa>,
    depredador: Depredador,
    next_id: u32,
}

/// The state of a run as values.
pub struct SimulacionV {
    pub dia: u32,
    pub presas: Seq<PresaV>,
    pub depredador: Depredador,
    /// The identifier the next newborn will get; never decreases.
    pub siguiente_id: u32,
}

impl View for Simulacion {
    type V = SimulacionV;

    closed spec fn view(&self) -> SimulacionV {
        SimulacionV {
            dia: self.dia,
            presas: vista(self.presas@),
            depredador: self.depredador,
            siguiente_id: self.next_id,
        }
    }
}

/// Identifiers strictly increase along the population, so none repeats.
pub open spec fn ids_crecientes(s: Seq<PresaV>) -> bool {
    forall|i: int, j: int| 0 <= i < j < s.len() ==> s[i].id < s[j].id
}

/// A population between days: everyone alive, within the species' maximum
/// age, with distinct identifiers that were all issued before `siguiente`.
pub open spec fn poblacion_valida(s: Seq<PresaV>, siguiente: u32) -> bool {
    &&& ids_crecientes(s)
    &&& forall|i: int|
        0 <= i < s.len() ==> {
            &&& (#[trigger] s[i]).viva
            &&& s[i].id < siguiente
            &&& s[i].edad <= edad_maxima(s[i].especie)
        }
}

/// `p` is some member of `s`, one day older.
pub open spec fn proviene_de(p: PresaV, s: Seq<PresaV>) -> bool {
    exists|j: int| 0 <= j < s.len() && p == (#[trigger] s[j]).un_dia_mayor()
}

/// `p` was born today: its identifier was issued during the day.
pub open spec fn nacida_entre(p: PresaV, desde: u32, hasta: u32) -> bool {
    &&& desde <= p.id < hasta
    &&& p.edad == 0
    &&& p.viva
}

/// Nobody can be hunted, and nobody outlives its species' maximum age today.
pub open spec fn sin_bajas_forzosas(s: Seq<PresaV>) -> bool {
    &&& !hay_cazable(s)
    &&& forall|i: int| 0 <= i < s.len() ==> (#[trigger] s[i]).edad + 1 <= edad_maxima(s[i].especie)
}

/// The day that follows when no random event comes out "yes" and nobody
/// can be hunted or dies of age: everyone is one day older, nobody is born,
/// and the predator pays its daily cost.
pub open spec fn dia_tranquilo(s: SimulacionV) -> SimulacionV {
    if !s.depredador.vivo {
        s
    } else {
        SimulacionV {
            dia: (s.dia + 1) as u32,
            presas: s.presas.map_values(|p: PresaV| p.un_dia_mayor()),
            depredador: tras_consumo(s.depredador),
            siguiente_id: s.siguiente_id,
        }
    }
}

/// What one day of a run with a living predator may turn `antes` into:
/// the counter moves on, the predator pays its daily cost and culls at most
/// one of the individuals tied for the heaviest, and everyone left is a
/// member of `antes` one day older or was born today, and every identifier
/// issued during the day is held by someone present afterwards.
pub open spec fn dia_posible(antes: SimulacionV, despues: SimulacionV) -> bool {
    let d = tras_consumo(antes.depredador);
    &&& despues.dia == antes.dia + 1
    &&& antes.siguiente_id <= despues.siguiente_id
    &&& despues.depredador.vivo == d.vivo
    &&& forall|id: u32| antes.siguiente_id <= id < despues.siguiente_id ==> #[trigger] tiene_id(despues.presas, id)
    &&& forall|k: int|
        0 <= k < despues.presas.len() ==> proviene_de(#[trigger] despues.presas[k], antes.presas)
            || nacida_entre(despues.presas[k], antes.siguiente_id, despues.siguiente_id)
    &&& !(d.vivo && hay_cazable(antes.presas)) ==> despues.depredador == d
    &&& d.vivo && hay_cazable(antes.presas) ==> exists|h: int|
        #![trigger antes.presas[h]]
        empatada(antes.presas, h) && despues.depredador.reserva_comida_mg == d.reserva_comida_mg
            + antes.presas[h].peso() && forall|k: int|
            0 <= k < despues.presas.len() ==> (#[trigger] despues.presas[k]).id != antes.presas[h].id
}

/// `d` quiet days in a row.
pub open spec fn dias_tranquilos(s: SimulacionV, d: nat) -> SimulacionV
    decreases d,
{
    if d == 0 {
        s
    } else {
        dia_tranquilo(dias_tranquilos(s, (d - 1) as nat))
    }
}

/// How many members of `s` are of species `e`.
pub open spec fn contar(s: Seq<PresaV>, e: Especie) -> nat
    decreases s.len(),
{
    if s.len() == 0 {
        0
    } else {
        contar(s.drop_last(), e) + if s.last().especie == e {
            1nat
        } else {
            0nat
        }
    }
}

/// Identifiers are never reused. In a valid population no two individuals
/// share one; a day never moves the counter back; and whoever is new after
/// a day holds an identifier issued that day, above every identifier issued
/// before it, including those of individuals since removed.
pub proof fn ley_identificadores(antes: SimulacionV, despues: SimulacionV)
    requires
        poblacion_valida(antes.presas, antes.siguiente_id),
        poblacion_valida(despues.presas, despues.siguiente_id),
        dia_posible(antes, despues),
    ensures
        forall|i: int, j: int|
            0 <= i < despues.presas.len() && 0 <= j < despues.presas.len() && i != j ==> despues.presas[i].id
                != despues.presas[j].id,
        antes.siguiente_id <= despues.siguiente_id,
        forall|k: int|
            0 <= k < despues.presas.len() && !proviene_de(#[trigger] despues.presas[k], antes.presas)
                ==> antes.siguiente_id <= despues.presas[k].id < despues.siguiente_id,
        forall|k: int|
            0 <= k < despues.presas.len() && proviene_de(#[trigger] despues.presas[k], antes.presas)
                ==> despues.presas[k].id < antes.siguiente_id,
{
    assert forall|k: int|
        0 <= k < despues.presas.len() && proviene_de(#[trigger] despues.presas[k], antes.presas)
            implies despues.presas[k].id < antes.siguiente_id by {
        let j = choose|j: int| 0 <= j < antes.presas.len() && despues.presas[k] == (#[trigger] antes.presas[j]).un_dia_mayor();
        assert(antes.presas[j].id < antes.siguiente_id);
    }
    assert forall|i: int, j: int|
        0 <= i < despues.presas.len() && 0 <= j < despues.presas.len() && i != j implies despues.presas[i].id
            != despues.presas[j].id by {
        if i < j {
            assert(despues.presas[i].id < despues.presas[j].id);
        } else {
            assert(despues.presas[j].id < despues.presas[i].id);
        }
    }
}

/// With a source that says "no" to every yes/no draw, a population whose
/// members stay younger than both their hunting age and their maximum age
/// for all `d` days, and a predator whose reserve covers the optimal ration
/// on each of them, every day is a quiet one: after `d` days the same
/// individuals remain, in the same order, `d` days older; nobody was born;
/// and the reserve is down by `d` optimal rations.
pub proof fn ley_dias_tranquilos(s: SimulacionV, d: nat)
    requires
        s.depredador.vivo,
        s.depredador.reserva_comida_mg >= d * DEPREDADOR_CONSUMO_OPTIMO_DIARIO_MG,
        s.dia + d <= u32::MAX,
        forall|i: int|
            0 <= i < s.presas.len() ==> (#[trigger] s.presas[i]).edad + d < edad_maxima(s.presas[i].especie)
                && s.presas[i].edad + d < edad_sacrificio(s.presas[i].especie),
    ensures
        forall|k: nat| k < d ==> sin_bajas_forzosas(#[trigger] dias_tranquilos(s, k).presas),
        forall|k: nat| k < d ==> (#[trigger] dias_tranquilos(s, k)).depredador.vivo,
        dias_tranquilos(s, d).presas.len() == s.presas.len(),
        forall|i: int|
            0 <= i < s.presas.len() ==> #[trigger] dias_tranquilos(s, d).presas[i] == (PresaV {
                edad: (s.presas[i].edad + d) as u32,
                ..s.presas[i]
            }),
        dias_tranquilos(s, d).dia == s.dia + d,
        dias_tranquilos(s, d).siguiente_id == s.siguiente_id,
        dias_tranquilos(s, d).depredador.vivo,
        dias_tranquilos(s, d).depredador.reserva_comida_mg == s.depredador.reserva_comida_mg - d
            * DEPREDADOR_CONSUMO_OPTIMO_DIARIO_MG,
    decreases d,
{
    if d > 0 {
        let d1 = (d - 1) as nat;
        assert(s.depredador.reserva_comida_mg >= d1 * DEPREDADOR_CONSUMO_OPTIMO_DIARIO_MG) by (nonlinear_arith)
            requires
                s.depredador.reserva_comida_mg >= d * DEPREDADOR_CONSUMO_OPTIMO_DIARIO_MG,
                d1 < d,
        ;
        ley_dias_tranquilos(s, d1);
        let t = dias_tranquilos(s, d1);
        assert(t.depredador.reserva_comida_mg >= DEPREDADOR_CONSUMO_OPTIMO_DIARIO_MG) by (nonlinear_arith)
            requires
                s.depredador.reserva_comida_mg >= d * DEPREDADOR_CONSUMO_OPTIMO_DIARIO_MG,
                t.depredador.reserva_comida_mg == s.depredador.reserva_comida_mg - d1
                    * DEPREDADOR_CONSUMO_OPTIMO_DIARIO_MG,
                d1 + 1 == d,
        ;
        assert forall|i: int| 0 <= i < t.presas.len() implies !#[trigger] cazable(t.presas[i]) by {
            assert(t.presas[i].edad == s.presas[i].edad + d1);
        }
        assert(!hay_cazable(t.presas));
        assert forall|i: int| 0 <= i < t.presas.len() implies (#[trigger] t.presas[i]).edad + 1 <= edad_maxima(
            t.presas[i].especie,
        ) by {
            assert(t.presas[i].edad == s.presas[i].edad + d1);
        }
        assert forall|k: nat| k < d implies sin_bajas_forzosas(#[trigger] dias_tranquilos(s, k).presas) by {
            if k < d1 {
                assert(sin_bajas_forzosas(dias_tranquilos(s, k).presas));
            }
        }
        assert forall|k: nat| k < d implies (#[trigger] dias_tranquilos(s, k)).depredador.vivo by {
            if k < d1 {
                assert(dias_tranquilos(s, k).depredador.vivo);
            }
        }
        assert(d1 * DEPREDADOR_CONSUMO_OPTIMO_DIARIO_MG + DEPREDADOR_CONSUMO_OPTIMO_DIARIO_MG == d
            * DEPREDADOR_CONSUMO_OPTIMO_DIARIO_MG) by (nonlinear_arith)
            requires
                d1 + 1 == d,
        ;
    }
}

/// The members of the first `n` of `a` that live through the day, one day
/// older and in order: member `j` dies when it outlives its species'
/// maximum age or when `enfermas[j]`.
pub open spec fn sobrevivientes(a: Seq<PresaV>, enfermas: Seq<bool>, n: nat) -> Seq<PresaV>
    decreases n,
{
    if n == 0 {
        Seq::empty()
    } else {
        let s = sobrevivientes(a, enfermas, (n - 1) as nat);
        let p = a[n - 1];
        if muere(p.especie, (p.edad + 1) as u32, enfermas[n - 1]) {
            s
        } else {
            s.push(p.un_dia_mayor())
        }
    }
}

/// Some member of `s` holds identifier `id`.
pub open spec fn tiene_id(s: Seq<PresaV>, id: u32) -> bool {
    exists|k: int| 0 <= k < s.len() && #[trigger] s[k].id == id
}

/// Draws, for each member of `actuales`, whether it falls ill today. Nothing
/// is drawn for a member about to outlive its species' maximum age.
fn sortear_enfermedades<R: FuenteAleatoria>(actuales: &Vec<Presa>, rng: &mut R) -> (enfermas: Vec<bool>)
    ensures
        enfermas.len() == actuales.len(),
        final(rng).siempre_dice_no() == old(rng).siempre_dice_no(),
        old(rng).siempre_dice_no() ==> forall|j: int| 0 <= j < enfermas.len() ==> !#[trigger] enfermas@[j],
{
    let mut enfermas: Vec<bool> = Vec::new();
    let mut i: usize = 0;
    while i < actuales.len()
        invariant
            i <= actuales.len(),
            enfermas.len() == i,
            rng.siempre_dice_no() == old(rng).siempre_dice_no(),
            old(rng).siempre_dice_no() ==> forall|j: int| 0 <= j < enfermas.len() ==> !#[trigger] enfermas@[j],
        decreases actuales.len() - i,
    {
        let p = &actuales[i];
        let enferma = if p.edad() >= p.especie().edad_maxima_dias() {
            false
        } else {
            rng.probabilidad(PROBABILIDAD_ENFERMAR.0, PROBABILIDAD_ENFERMAR.1)
        };
        enfermas.push(enferma);
        i = i + 1;
    }
    enfermas
}

/// Ages every member of `actuales`, member `j` falling ill when
/// `enfermas[j]`, and lets each breed (see `Presa::reproducirse`). The
/// result is the survivors, in order, followed by all the newborns, which
/// hold the identifiers issued today in increasing order.
pub fn pasar_dia_presas<R: FuenteAleatoria>(
    actuales: &Vec<Presa>,
    enfermas: &Vec<bool>,
    rng: &mut R,
    next_id: &mut u32,
) -> (r: Vec<Presa>)
    requires
        poblacion_valida(vista(actuales@), *old(next_id)),
        *old(next_id) + CRIAS_MAXIMAS * actuales.len() <= u32::MAX,
        enfermas.len() == actuales.len(),
    ensures
        final(rng).siempre_dice_no() == old(rng).siempre_dice_no(),
        *old(next_id) <= *final(next_id),
        poblacion_valida(vista(r@), *final(next_id)),
        ({
            let vivas = sobrevivientes(vista(actuales@), enfermas@, actuales.len() as nat);
            &&& r.len() == vivas.len() + (*final(next_id) - *old(next_id))
            &&& vista(r@).take(vivas.len() as int) == vivas
            &&& forall|k: int|
                vivas.len() <= k < r.len() ==> (#[trigger] vista(r@)[k]).id == *old(next_id) + (k
                    - vivas.len()) && nacida_entre(vista(r@)[k], *old(next_id), *final(next_id))
        }),
        forall|k: int|
            0 <= k < r.len() ==> proviene_de(#[trigger] vista(r@)[k], vista(actuales@)) || nacida_entre(
                vista(r@)[k],
                *old(next_id),
                *final(next_id),
            ),
        forall|k: int|
            0 <= k < r.len() && proviene_de(#[trigger] vista(r@)[k], vista(actuales@)) ==> vista(r@)[k].id
                < *old(next_id),
        forall|id: u32| *old(next_id) <= id < *final(next_id) ==> #[trigger] tiene_id(vista(r@), id),
        old(rng).siempre_dice_no() && sin_bajas_forzosas(vista(actuales@)) && (forall|j: int|
            0 <= j < enfermas.len() ==> !#[trigger] enfermas@[j]) ==> vista(r@) == vista(
            actuales@,
        ).map_values(|p: PresaV| p.un_dia_mayor()) && *final(next_id) == *old(next_id),
{
    let ghost a = vista(actuales@);
    let ghost enf = enfermas@;
    let ghost inicio = *old(next_id);
    let ghost quieto = rng.siempre_dice_no() && sin_bajas_forzosas(a) && (forall|j: int|
        0 <= j < enfermas.len() ==> !#[trigger] enfermas@[j]);
    let mut siguen: Vec<Presa> = Vec::new();
    let mut crias: Vec<Presa> = Vec::new();
    let mut i: usize = 0;
    while i < actuales.len()
        invariant
            i <= actuales.len(),
            a == vista(actuales@),
            enf == enfermas@,
            enfermas.len() == actuales.len(),
            poblacion_valida(a, inicio),
            inicio + CRIAS_MAXIMAS * actuales.len() <= u32::MAX,
            inicio <= *next_id,
            *next_id + CRIAS_MAXIMAS * (actuales.len() - i) <= u32::MAX,
            *next_id == inicio + crias.len(),
            rng.siempre_dice_no() == old(rng).siempre_dice_no(),
            quieto == (old(rng).siempre_dice_no() && sin_bajas_forzosas(a) && (forall|j: int|
                0 <= j < enfermas.len() ==> !#[trigger] enfermas@[j])),
            forall|k: int| 0 <= k < crias.len() ==> (#[trigger] vista(crias@)[k]).id == inicio + k,
            forall|k: int| 0 <= k < crias.len() ==> nacida_entre(#[trigger] vista(crias@)[k], inicio, *next_id),
            vista(siguen@) == sobrevivientes(a, enf, i as nat),
            poblacion_valida(vista(siguen@), inicio),
            forall|k: int, j: int|
                0 <= k < siguen.len() && i <= j < a.len() ==> (#[trigger] vista(siguen@)[k]).id < (
                #[trigger] a[j]).id,
            forall|k: int| 0 <= k < siguen.len() ==> proviene_de(#[trigger] vista(siguen@)[k], a),
            quieto ==> crias.len() == 0 && vista(siguen@) == a.take(i as int).map_values(
                |p: PresaV| p.un_dia_mayor(),
            ),
        decreases actuales.len() - i,
    {
        let mut presa = actuales[i];
        let ghost antes = presa@;
        proof {
            assert(a[i as int] == antes);
        }
        presa.envejecer_con(enfermas[i]);
        let mut nuevas = presa.reproducirse(rng, next_id);
        let ghost siguen_antes = vista(siguen@);
        let ghost crias_antes = vista(crias@);
        proof {
            assert forall|k: int| 0 <= k < nuevas.len() implies (#[trigger] vista(nuevas@)[k]).id == inicio
                + crias_antes.len() + k && nacida_entre(vista(nuevas@)[k], inicio, *next_id) by {
                assert(nuevas@[k]@.es_cria(antes.especie, (inicio + crias_antes.len() + k) as u32));
            }
        }
        let ghost nuevas_v = vista(nuevas@);
        crias.append(&mut nuevas);
        proof {
            assert(vista(crias@) =~= crias_antes + nuevas_v);
        }
        if presa.esta_viva() {
            siguen.push(presa);
            proof {
                assert(vista(siguen@) =~= siguen_antes.push(presa@));
                assert(presa@ == antes.un_dia_mayor());
                assert(proviene_de(presa@, a));
            }
        }
        proof {
            if quieto {
                assert(!enf[i as int]);
                assert(a[i as int].edad + 1 <= edad_maxima(a[i as int].especie));
                assert(!muere(antes.especie, (antes.edad + 1) as u32, false));
                assert(a.take(i + 1).map_values(|p: PresaV| p.un_dia_mayor()) =~= a.take(
                    i as int,
                ).map_values(|p: PresaV| p.un_dia_mayor()).push(antes.un_dia_mayor()));
            }
        }
        i = i + 1;
    }
    proof {
        if quieto {
            assert(a.take(actuales.len() as int) =~= a);
        }
    }
    let ghost siguen_v = vista(siguen@);
    let ghost crias_v = vista(crias@);
    siguen.append(&mut crias);
    proof {
        let rv = vista(siguen@);
        assert(rv =~= siguen_v + crias_v);
        assert(rv.take(siguen_v.len() as int) =~= siguen_v);
        assert forall|id: u32| inicio <= id < *next_id implies #[trigger] tiene_id(rv, id) by {
            let k = siguen_v.len() + (id - inicio);
            assert(rv[k] == crias_v[id - inicio]);
            assert(rv[k].id == id);
        }
    }
    siguen
}

/// Culling one member keeps a population valid; whoever comes from what is
/// left comes from the whole, and is not the culled one.
proof fn lema_quitar(s: Seq<PresaV>, h: int, siguiente: u32)
    requires
        poblacion_valida(s, siguiente),
        0 <= h < s.len(),
    ensures
        poblacion_valida(s.remove(h), siguiente),
        forall|p: PresaV| #[trigger] proviene_de(p, s.remove(h)) ==> proviene_de(p, s) && p.id != s[h].id,
{
    let t = s.remove(h);
    assert forall|i: int| 0 <= i < t.len() implies #[trigger] t[i] == s[if i < h { i } else { i + 1 }] by {}
    assert forall|i: int| 0 <= i < t.len() implies {
        &&& (#[trigger] t[i]).viva
        &&& t[i].id < siguiente
        &&& t[i].edad <= edad_maxima(t[i].especie)
    } by {
        assert(t[i] == s[if i < h { i } else { i + 1 }]);
    }
    assert forall|i: int, j: int| 0 <= i < j < t.len() implies t[i].id < t[j].id by {
        assert(t[i] == s[if i < h { i } else { i + 1 }]);
        assert(t[j] == s[if j < h { j } else { j + 1 }]);
    }
    assert forall|p: PresaV| #[trigger] proviene_de(p, t) implies proviene_de(p, s) && p.id != s[h].id by {
        let j = choose|j: int| 0 <= j < t.len() && p == (#[trigger] t[j]).un_dia_mayor();
        let j2 = if j < h { j } else { j + 1 };
        assert(t[j] == s[j2]);
        assert(p == s[j2].un_dia_mayor());
    }
}

impl Simulacion {
    pub open spec fn bien_formada(&self) -> bool {
        poblacion_valida(self@.presas, self@.siguiente_id)
    }

    /// A run of `conejos` newborn rabbits followed by `cabras` newborn goats,
    /// numbered from 0, and a predator holding `reserva_inicial_mg`.
    pub fn con_poblacion<R: FuenteAleatoria>(
        conejos: u32,
        cabras: u32,
        reserva_inicial_mg: u64,
        rng: &mut R,
    ) -> (s: Simulacion)
        requires
            conejos + cabras <= u32::MAX,
        ensures
            s.bien_formada(),
            s@.dia == 0,
            s@.depredador == (Depredador { reserva_comida_mg: reserva_inicial_mg, vivo: true }),
            s@.siguiente_id == conejos + cabras,
            s@.presas.len() == conejos + cabras,
            forall|k: int|
                0 <= k < conejos ==> (#[trigger] s@.presas[k]).es_cria(Especie::Conejo, k as u32),
            forall|k: int|
                conejos <= k < conejos + cabras ==> (#[trigger] s@.presas[k]).es_cria(
                    Especie::Cabra,
                    k as u32,
                ),
            final(rng).siempre_dice_no() == old(rng).siempre_dice_no(),
    {
        let mut presas: Vec<Presa> = Vec::new();
        let mut id: u32 = 0;
        while id < conejos + cabras
            invariant
                conejos + cabras <= u32::MAX,
                id <= conejos + cabras,
                presas.len() == id,
                rng.siempre_dice_no() == old(rng).siempre_dice_no(),
                forall|k: int|
                    0 <= k < id ==> (#[trigger] vista(presas@)[k]).es_cria(
                        if k < conejos {
                            Especie::Conejo
                        } else {
                            Especie::Cabra
                        },
                        k as u32,
                    ),
            decreases conejos + cabras - id,
        {
            let presa = if id < conejos {
                Conejo::new(id, rng)
            } else {
                Cabra::new(id, rng)
            };
            let ghost antes = vista(presas@);
            presas.push(presa);
            proof {
                assert(vista(presas@) =~= antes.push(presa@));
            }
            id = id + 1;
        }
        let s = Simulacion { dia: 0, presas, depredador: Depredador::new(reserva_inicial_mg), next_id: id };
        proof {
            assert forall|k: int|
                0 <= k < conejos + cabras implies (#[trigger] s@.presas[k]).edad <= edad_maxima(
                s@.presas[k].especie,
            ) by {
                assert(s@.presas[k].edad == 0);
            }
        }
        s
    }

    /// The standard run: 60 rabbits, 25 goats, 900 kg of reserve.
    pub fn new<R: FuenteAleatoria>(rng: &mut R) -> (s: Simulacion)
        ensures
            s.bien_formada(),
            s@.dia == 0,
            s@.depredador == (Depredador { reserva_comida_mg: DEPREDADOR_RESERVA_INICIAL_MG, vivo: true }),
            s@.siguiente_id == N_CONEJOS_INICIAL + N_CABRAS_INICIAL,
            s@.presas.len() == N_CONEJOS_INICIAL + N_CABRAS_INICIAL,
            forall|k: int|
                0 <= k < N_CONEJOS_INICIAL ==> (#[trigger] s@.presas[k]).es_cria(Especie::Conejo, k as u32),
            forall|k: int|
                N_CONEJOS_INICIAL <= k < N_CONEJOS_INICIAL + N_CABRAS_INICIAL ==> (#[trigger] s@.presas[k]).es_cria(
                    Especie::Cabra,
                    k as u32,
                ),
            final(rng).siempre_dice_no() == old(rng).siempre_dice_no(),
    {
        Simulacion::con_poblacion(N_CONEJOS_INICIAL, N_CABRAS_INICIAL, DEPREDADOR_RESERVA_INICIAL_MG, rng)
    }

    /// Advances the run by one day, unless the predator is dead (then
    /// nothing changes). In order: the day counter moves on; the predator
    /// pays its daily cost; if still alive and there is prey, it hunts once;
    /// whether each remaining individual falls ill is drawn; every one of
    /// them ages and may breed, newborns waiting until the end of the day
    /// (see `pasar_dia_presas`); the newborns join the population; the dead
    /// are removed.
    pub fn avanzar_dia<R: FuenteAleatoria>(&mut self, rng: &mut R)
        requires
            old(self).bien_formada(),
            old(self)@.dia < u32::MAX,
            old(self)@.depredador.reserva_comida_mg <= u64::MAX - PESO_MAXIMO_PRESA_MG,
            old(self)@.siguiente_id + CRIAS_MAXIMAS * old(self)@.presas.len() <= u32::MAX,
        ensures
            final(self).bien_formada(),
            final(rng).siempre_dice_no() == old(rng).siempre_dice_no(),
            !old(self)@.depredador.vivo ==> final(self)@ == old(self)@ && *final(rng) == *old(rng),
            old(self)@.depredador.vivo ==> dia_posible(old(self)@, final(self)@),
            old(self)@.depredador.vivo && old(rng).siempre_dice_no() && sin_bajas_forzosas(old(self)@.presas)
                ==> final(self)@ == dia_tranquilo(old(self)@),
    {
        if !self.depredador.vivo {
            return;
        }
        let ghost antes = self@;
        self.dia = self.dia + 1;
        self.depredador.consumir_reserva();
        let ghost d = self.depredador;
        if self.depredador.vivo && self.presas.len() > 0 {
            self.depredador.cazar(&mut self.presas, rng);
        }
        let ghost cazadas = vista(self.presas@);
        proof {
            if d.vivo && hay_cazable(antes.presas) {
                let h = choose|h: int|
                    empatada(antes.presas, h) && self.presas@ == old(self).presas@.remove(h)
                        && self.depredador.reserva_comida_mg == d.reserva_comida_mg + (
                    #[trigger] vista(old(self).presas@)[h]).peso() && self.depredador.vivo;
                assert(cazadas =~= antes.presas.remove(h));
                lema_quitar(antes.presas, h, antes.siguiente_id);
            } else {
                assert(cazadas =~= antes.presas);
            }
        }
        let enfermas = sortear_enfermedades(&self.presas, rng);
        let nuevas = pasar_dia_presas(&self.presas, &enfermas, rng, &mut self.next_id);
        self.presas = nuevas;
        proof {
            let despues = self@;
            if d.vivo && hay_cazable(antes.presas) {
                let h = choose|h: int|
                    empatada(antes.presas, h) && cazadas == antes.presas.remove(h)
                        && self.depredador.reserva_comida_mg == d.reserva_comida_mg + (
                    #[trigger] antes.presas[h]).peso() && self.depredador.vivo;
                lema_quitar(antes.presas, h, antes.siguiente_id);
                assert forall|k: int|
                    0 <= k < despues.presas.len() implies (#[trigger] despues.presas[k]).id
                    != antes.presas[h].id by {
                    if !proviene_de(despues.presas[k], cazadas) {
                        assert(antes.presas[h].id < antes.siguiente_id);
                    }
                }
                assert forall|k: int|
                    0 <= k < despues.presas.len() implies proviene_de(
                    #[trigger] despues.presas[k],
                    antes.presas,
                ) || nacida_entre(despues.presas[k], antes.siguiente_id, despues.siguiente_id) by {
                    assert(proviene_de(despues.presas[k], cazadas) || nacida_entre(
                        despues.presas[k],
                        antes.siguiente_id,
                        despues.siguiente_id,
                    ));
                }
            }
            if rng.siempre_dice_no() && sin_bajas_forzosas(antes.presas) {
                assert(despues.presas =~= dia_tranquilo(antes).presas);
            }
        }
    }

    /// How many living rabbits and goats there are.
    pub fn contar_especies(&self) -> (r: (usize, usize))
        ensures
            r.0 == contar(self@.presas, Especie::Conejo),
            r.1 == contar(self@.presas, Especie::Cabra),
            r.0 + r.1 == self@.presas.len(),
    {
        let ghost s = self@.presas;
        let mut conejos: usize = 0;
        let mut cabras: usize = 0;
        let mut i: usize = 0;
        while i < self.presas.len()
            invariant
                i <= self.presas.len(),
                s == vista(self.presas@),
                conejos == contar(s.take(i as int), Especie::Conejo),
                cabras == contar(s.take(i as int), Especie::Cabra),
                conejos + cabras == i,
            decreases self.presas.len() - i,
        {
            proof {
                assert(s.take(i + 1).drop_last() =~= s.take(i as int));
                assert(s[i as int] == self.presas@[i as int]@);
            }
            match self.presas[i].especie() {
                Especie::Conejo => conejos = conejos + 1,
                Especie::Cabra => cabras = cabras + 1,
            }
            i = i + 1;
        }
        proof {
            assert(s.take(self.presas.len() as int) =~= s);
        }
        (conejos, cabras)
    }

    /// The current day; 0 before the first advance.
    pub fn dia(&self) -> (r: u32)
        ensures
            r == self@.dia,
    {
        self.dia
    }

    /// The living population.
    pub fn presas(&self) -> (r: &Vec<Presa>)
        ensures
            vista(r@) == self@.presas,
    {
        &self.presas
    }

    pub fn depredador(&self) -> (r: Depredador)
        ensures
            r == self@.depredador,
    {
        self.depredador
    }

    /// The identifier the next newborn will get.
    pub fn siguiente_id(&self) -> (r: u32)
        ensures
            r == self@.siguiente_id,
    {
        self.next_id
    }
}

} // verus!
