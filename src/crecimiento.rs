//! The Gompertz growth curve `W * exp(-exp(-k * (t - t0)))`, evaluated in
//! fixed point with scale `ESCALA`.
//!
//! The inner term `exp(-k * (t - t0))` starts at `exp(k * t0)` and is multiplied
//! by `exp(-k)` once per day (rounded down). The outer `exp(-x)` is taken as
//! `(1 - x / 2^20)^(2^20)`, by twenty squarings rounded up. Every step is
//! monotone, so the weight never decreases with age, never exceeds `W`, and
//! stays positive.
use vstd::prelude::*;
use crate::especies::{Especie, peso_maximo, PESO_MAXIMO_PRESA_MG};

verus! {

/// Fixed-point scale: `ESCALA` stands for 1.
pub const ESCALA: u128 = 1_000_000_000_000_000_000;
/// `2^CUADRADOS`: the outer exponent is approximated by this many equal steps.
pub const DIVISOR: u128 = 1_048_576;
pub const CUADRADOS: u32 = 20;

/// `exp(k * t0)` in fixed point: the inner term at age 0.
pub open spec fn interior_inicial(e: Especie) -> u128 {
    match e {
        Especie::Conejo => 90_017_131_300_521_813_550,
        Especie::Cabra => 6_049_647_464_412_946_084,
    }
}

/// `exp(-k)` in fixed point: the daily factor of the inner term.
pub open spec fn factor_diario(e: Especie) -> u128 {
    match e {
        Especie::Conejo => 951_229_424_500_714_009,
        Especie::Cabra => 990_049_833_749_168_054,
    }
}

/// The inner term `exp(-k * (t - t0))` at age `t`.
pub open spec fn interior(e: Especie, t: nat) -> nat
    decreases t,
{
    if t == 0 {
        interior_inicial(e) as nat
    } else {
        interior(e, (t - 1) as nat) * factor_diario(e) as nat / ESCALA as nat
    }
}

/// One squaring in fixed point, rounded up.
pub open spec fn cuadrado(y: nat) -> nat {
    (y * y + ESCALA - 1) as nat / ESCALA as nat
}

/// `y` squared `n` times.
pub open spec fn cuadrados(y: nat, n: nat) -> nat
    decreases n,
{
    if n == 0 {
        y
    } else {
        cuadrado(cuadrados(y, (n - 1) as nat))
    }
}

/// `exp(-x)` for the inner term `x` at age `t`: the fraction of the maximum
/// weight reached.
pub open spec fn fraccion(e: Especie, t: nat) -> nat {
    cuadrados((ESCALA - interior(e, t) / DIVISOR as nat) as nat, CUADRADOS as nat)
}

/// Weight in milligrams at age `t` days, rounded up.
pub open spec fn peso_en_edad(e: Especie, t: nat) -> nat {
    (peso_maximo(e) * fraccion(e, t) + ESCALA - 1) as nat / ESCALA as nat
}

proof fn lema_interior_decrece(e: Especie, t: nat)
    ensures
        interior(e, t + 1) <= interior(e, t),
{
    let x = interior(e, t) as int;
    let f = factor_diario(e) as int;
    let s = ESCALA as int;
    assert(f <= s);
    assert(x * f <= x * s) by (nonlinear_arith)
        requires
            f <= s,
            x >= 0,
    ;
    assert(x * f / s <= x) by (nonlinear_arith)
        requires
            x * f <= x * s,
            s > 0,
    ;
}

proof fn lema_interior_monotono(e: Especie, a: nat, b: nat)
    requires
        a <= b,
    ensures
        interior(e, b) <= interior(e, a),
    decreases b - a,
{
    if a < b {
        lema_interior_monotono(e, a, (b - 1) as nat);
        lema_interior_decrece(e, (b - 1) as nat);
    }
}

proof fn lema_interior_cero(e: Especie, a: nat, b: nat)
    requires
        a <= b,
        interior(e, a) == 0,
    ensures
        interior(e, b) == 0,
{
    lema_interior_monotono(e, a, b);
}

proof fn lema_cuadrado(y: nat, z: nat)
    requires
        1 <= y <= z <= ESCALA,
    ensures
        1 <= cuadrado(y) <= cuadrado(z) <= ESCALA,
{
    let s = ESCALA as int;
    assert(y * y <= z * z) by (nonlinear_arith)
        requires
            y <= z,
    ;
    assert(z * z <= s * s) by (nonlinear_arith)
        requires
            z <= s,
    ;
    assert(1 <= y * y) by (nonlinear_arith)
        requires
            1 <= y,
    ;
    assert((y * y + s - 1) / s <= (z * z + s - 1) / s) by (nonlinear_arith)
        requires
            y * y <= z * z,
            s > 0,
    ;
    assert((z * z + s - 1) / s <= s) by (nonlinear_arith)
        requires
            z * z <= s * s,
            s > 0,
    ;
    assert(1 <= (y * y + s - 1) / s) by (nonlinear_arith)
        requires
            1 <= y * y,
            s > 0,
    ;
}

proof fn lema_cuadrados(y: nat, z: nat, n: nat)
    requires
        1 <= y <= z <= ESCALA,
    ensures
        1 <= cuadrados(y, n) <= cuadrados(z, n) <= ESCALA,
    decreases n,
{
    if n > 0 {
        lema_cuadrados(y, z, (n - 1) as nat);
        lema_cuadrado(cuadrados(y, (n - 1) as nat), cuadrados(z, (n - 1) as nat));
    }
}

/// The fraction reached grows with age and stays within `[1, ESCALA]`.
proof fn lema_fraccion(e: Especie, a: nat, b: nat)
    requires
        a <= b,
    ensures
        1 <= fraccion(e, a) <= fraccion(e, b) <= ESCALA,
{
    lema_interior_monotono(e, 0, a);
    lema_interior_monotono(e, a, b);
    let s = ESCALA as int;
    let d = DIVISOR as nat;
    let ia = interior(e, a);
    let ib = interior(e, b);
    assert(ia <= interior_inicial(e));
    assert(ia / d <= interior_inicial(e) as nat / d) by (nonlinear_arith)
        requires
            ia <= interior_inicial(e) as nat,
            d > 0,
    ;
    assert(ib / d <= ia / d) by (nonlinear_arith)
        requires
            ib <= ia,
            d > 0,
    ;
    lema_cuadrados((s - ia / d) as nat, (s - ib / d) as nat, CUADRADOS as nat);
}

/// The growth curve never decreases with age, never exceeds the species'
/// maximum weight, and is strictly positive at every age.
pub proof fn lema_peso_en_edad(e: Especie, a: nat, b: nat)
    requires
        a <= b,
    ensures
        1 <= peso_en_edad(e, a) <= peso_en_edad(e, b) <= peso_maximo(e),
{
    lema_fraccion(e, a, b);
    let s = ESCALA as int;
    let w = peso_maximo(e) as int;
    let fa = fraccion(e, a);
    let fb = fraccion(e, b);
    assert(w >= 1);
    assert(w * fa <= w * fb && w * fb <= w * s && 1 <= w * fa) by (nonlinear_arith)
        requires
            1 <= fa <= fb <= s,
            w >= 1,
    ;
    assert((w * fa + s - 1) / s <= (w * fb + s - 1) / s) by (nonlinear_arith)
        requires
            w * fa <= w * fb,
            s > 0,
    ;
    assert((w * fb + s - 1) / s <= w) by (nonlinear_arith)
        requires
            w * fb <= w * s,
            s > 0,
    ;
    assert(1 <= (w * fa + s - 1) / s) by (nonlinear_arith)
        requires
            1 <= w * fa,
            s > 0,
    ;
}

/// Weight in milligrams of an individual of species `e` aged `edad` days.
pub fn peso_en_edad_mg(e: Especie, edad: u32) -> (r: u64)
    ensures
        r == peso_en_edad(e, edad as nat),
        1 <= r <= peso_maximo(e),
{
    proof {
        lema_peso_en_edad(e, edad as nat, edad as nat);
    }
    let (inicial, factor): (u128, u128) = match e {
        Especie::Conejo => (90_017_131_300_521_813_550, 951_229_424_500_714_009),
        Especie::Cabra => (6_049_647_464_412_946_084, 990_049_833_749_168_054),
    };
    let mut g: u128 = inicial;
    let mut i: u32 = 0;
    while i < edad && g > 0
        invariant
            i <= edad,
            g == interior(e, i as nat),
            inicial == interior_inicial(e),
            factor == factor_diario(e),
        decreases edad - i,
    {
        proof {
            lema_interior_monotono(e, 0, i as nat);
            assert(g * factor <= interior_inicial(e) * factor_diario(e)) by (nonlinear_arith)
                requires
                    g <= interior_inicial(e),
                    factor == factor_diario(e),
            ;
        }
        g = g * factor / ESCALA;
        i = i + 1;
    }
    proof {
        if g == 0 {
            lema_interior_cero(e, i as nat, edad as nat);
        }
        lema_interior_monotono(e, 0, edad as nat);
        assert(g / DIVISOR <= interior_inicial(e) / DIVISOR) by (nonlinear_arith)
            requires
                g <= interior_inicial(e),
        ;
    }
    let base: u128 = ESCALA - g / DIVISOR;
    let mut y: u128 = base;
    let mut n: u32 = 0;
    while n < CUADRADOS
        invariant
            n <= CUADRADOS,
            y == cuadrados(base as nat, n as nat),
            1 <= base <= ESCALA,
            1 <= y <= ESCALA,
        decreases CUADRADOS - n,
    {
        proof {
            lema_cuadrado(y as nat, y as nat);
            assert(y * y <= ESCALA * ESCALA) by (nonlinear_arith)
                requires
                    y <= ESCALA,
            ;
        }
        y = (y * y + ESCALA - 1) / ESCALA;
        n = n + 1;
    }
    let w: u128 = e.peso_maximo_mg() as u128;
    proof {
        assert(w * y <= PESO_MAXIMO_PRESA_MG * ESCALA) by (nonlinear_arith)
            requires
                w <= PESO_MAXIMO_PRESA_MG,
                y <= ESCALA,
        ;
    }
    ((w * y + ESCALA - 1) / ESCALA) as u64
}

} // verus!
