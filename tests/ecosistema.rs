use ecosistema::azar::{FuenteAleatoria, FuenteFija, FuenteSemilla};
use ecosistema::crecimiento::peso_en_edad_mg;
use ecosistema::depredador::{candidatos_caza, Depredador};
use ecosistema::especies::{Especie, Sexo};
use ecosistema::presas::{Cabra, Conejo, Presa};
use ecosistema::simulacion::{pasar_dia_presas, Simulacion};

fn presa_de_edad(especie: Especie, id: u32, edad: u32) -> Presa {
    let mut fija = FuenteFija { eleccion: 0 };
    let mut p = match especie {
        Especie::Conejo => Conejo::new(id, &mut fija),
        Especie::Cabra => Cabra::new(id, &mut fija),
    };
    for _ in 0..edad {
        p.envejecer(&mut fija);
    }
    p
}

fn comprobar_poblacion(sim: &Simulacion) {
    let presas = sim.presas();
    for (i, p) in presas.iter().enumerate() {
        assert!(p.esta_viva());
        assert!(p.id() < sim.siguiente_id());
        assert_eq!(p.peso(), peso_en_edad_mg(p.especie(), p.edad()));
        if i > 0 {
            assert!(presas[i - 1].id() < p.id());
        }
    }
}

#[test]
fn peso_no_decrece_y_no_supera_el_maximo() {
    for (especie, maximo) in [(Especie::Conejo, 5_000_000u64), (Especie::Cabra, 75_000_000u64)] {
        let mut anterior = 0u64;
        for edad in 0..6000u32 {
            let w = peso_en_edad_mg(especie, edad);
            assert!(w >= anterior);
            assert!(w >= 1);
            assert!(w <= maximo);
            anterior = w;
        }
        assert_eq!(peso_en_edad_mg(especie, 6000), maximo);
    }
}

#[test]
fn peso_valores_de_la_curva() {
    assert_eq!(peso_en_edad_mg(Especie::Conejo, 0), 1);
    assert_eq!(peso_en_edad_mg(Especie::Conejo, 90), 1_839_397);
    assert_eq!(peso_en_edad_mg(Especie::Conejo, 150), 4_757_160);
    assert_eq!(peso_en_edad_mg(Especie::Cabra, 0), 176_899);
    assert_eq!(peso_en_edad_mg(Especie::Cabra, 180), 27_590_945);
    assert_eq!(peso_en_edad_mg(Especie::Cabra, 250), 45_645_394);
    // Close to W * exp(-exp(-k (t - t0))) computed in floating point.
    let exacto = 75_000_000.0f64 * (-(-0.01f64 * (250.0 - 180.0)).exp()).exp();
    assert!((peso_en_edad_mg(Especie::Cabra, 250) as f64 - exacto).abs() < 100.0);
}

#[test]
fn recien_nacida_empieza_en_edad_cero() {
    let mut fija = FuenteFija { eleccion: 0 };
    let c = Cabra::new(9, &mut fija);
    assert_eq!(c.id(), 9);
    assert_eq!(c.especie(), Especie::Cabra);
    assert_eq!(c.sexo(), Sexo::Hembra);
    assert_eq!(c.edad(), 0);
    assert!(c.esta_viva());
    assert_eq!(c.peso(), peso_en_edad_mg(Especie::Cabra, 0));
}

#[test]
fn envejecer_suma_un_dia_y_recalcula_el_peso() {
    let mut fija = FuenteFija { eleccion: 0 };
    let mut p = Conejo::new(1, &mut fija);
    p.envejecer(&mut fija);
    assert_eq!(p.edad(), 1);
    assert_eq!(p.peso(), peso_en_edad_mg(Especie::Conejo, 1));
    assert!(p.esta_viva());
}

#[test]
fn envejecer_mata_por_vejez() {
    let mut p = presa_de_edad(Especie::Conejo, 1, 1825);
    assert!(p.esta_viva());
    let mut fija = FuenteFija { eleccion: 0 };
    p.envejecer(&mut fija);
    assert_eq!(p.edad(), 1826);
    assert!(!p.esta_viva());
    p.envejecer_con(false);
    assert!(!p.esta_viva());
}

#[test]
fn envejecer_con_enfermedad_mata() {
    let mut p = presa_de_edad(Especie::Cabra, 1, 10);
    p.envejecer_con(true);
    assert_eq!(p.edad(), 11);
    assert!(!p.esta_viva());
    let mut q = presa_de_edad(Especie::Cabra, 2, 10);
    q.envejecer_con(false);
    assert!(q.esta_viva());
}

#[test]
fn reproducirse_solo_hembras_maduras() {
    let mut semilla = FuenteSemilla::new(7);
    let mut fija = FuenteFija { eleccion: 0 };
    let joven = presa_de_edad(Especie::Conejo, 1, 99);
    let mut next_id = 10u32;
    for _ in 0..500 {
        assert!(joven.reproducirse(&mut semilla, &mut next_id).is_empty());
    }
    assert_eq!(next_id, 10);
    let madura = presa_de_edad(Especie::Conejo, 2, 100);
    assert_eq!(madura.sexo(), Sexo::Hembra);
    assert!(madura.reproducirse(&mut fija, &mut next_id).is_empty());
    let mut partos = 0;
    for _ in 0..500 {
        let antes = next_id;
        let crias = madura.reproducirse(&mut semilla, &mut next_id);
        if !crias.is_empty() {
            partos += 1;
            assert!(crias.len() >= 3 && crias.len() <= 6);
            for (k, c) in crias.iter().enumerate() {
                assert_eq!(c.id(), antes + k as u32);
                assert_eq!(c.edad(), 0);
                assert_eq!(c.especie(), Especie::Conejo);
                assert!(c.esta_viva());
            }
        }
        assert_eq!(next_id, antes + crias.len() as u32);
    }
    assert!(partos > 0);
}

#[test]
fn consumir_reserva_por_tramos() {
    let mut d = Depredador::new(6_000_000);
    d.consumir_reserva();
    assert_eq!(d.reserva_comida_mg, 1_000_000);
    assert!(d.vivo);
    let mut d = Depredador::new(4_000_000);
    d.consumir_reserva();
    assert_eq!(d.reserva_comida_mg, 1_000_000);
    assert!(d.vivo);
    let mut d = Depredador::new(2_999_999);
    d.consumir_reserva();
    assert_eq!(d.reserva_comida_mg, 2_999_999);
    assert!(!d.vivo);
}

#[test]
fn cazar_un_unico_conejo_elegible() {
    let conejo = presa_de_edad(Especie::Conejo, 3, 150);
    let peso = conejo.peso();
    assert_eq!(peso, peso_en_edad_mg(Especie::Conejo, 150));
    let mut presas = vec![conejo];
    let mut d = Depredador::new(0);
    let mut fija = FuenteFija { eleccion: 0 };
    d.cazar(&mut presas, &mut fija);
    assert!(presas.is_empty());
    assert_eq!(d.reserva_comida_mg, peso);
    assert_eq!(d.reserva_comida_mg, 4_757_160);
}

#[test]
fn cazar_empate_exacto_elige_el_indicado() {
    for eleccion in 0..2usize {
        let a = presa_de_edad(Especie::Conejo, 1, 200);
        let b = presa_de_edad(Especie::Conejo, 2, 200);
        let joven = presa_de_edad(Especie::Conejo, 3, 20);
        assert_eq!(a.peso(), b.peso());
        let peso = a.peso();
        let mut presas = vec![joven, a, b];
        let mut d = Depredador::new(1_000);
        let mut fija = FuenteFija { eleccion };
        d.cazar(&mut presas, &mut fija);
        assert_eq!(presas.len(), 2);
        assert_eq!(d.reserva_comida_mg, 1_000 + peso);
        let quedan: Vec<u32> = presas.iter().map(|p| p.id()).collect();
        if eleccion == 0 {
            assert_eq!(quedan, vec![3, 2]);
        } else {
            assert_eq!(quedan, vec![3, 1]);
        }
    }
}

#[test]
fn cazar_sin_elegibles_no_cambia_nada() {
    let mut presas = vec![presa_de_edad(Especie::Conejo, 1, 149), presa_de_edad(Especie::Cabra, 2, 249)];
    let mut d = Depredador::new(5_000);
    let mut fija = FuenteFija { eleccion: 0 };
    d.cazar(&mut presas, &mut fija);
    assert_eq!(presas.len(), 2);
    assert_eq!(d.reserva_comida_mg, 5_000);
}

#[test]
fn cazar_depredador_muerto_no_caza() {
    let mut presas = vec![presa_de_edad(Especie::Conejo, 1, 300)];
    let mut d = Depredador::new(0);
    d.vivo = false;
    let mut fija = FuenteFija { eleccion: 0 };
    d.cazar(&mut presas, &mut fija);
    assert_eq!(presas.len(), 1);
    assert_eq!(d.reserva_comida_mg, 0);
}

#[test]
fn candidatos_dentro_de_la_banda() {
    // Adult rabbits weigh within a few grams of each other; the goat is far heavier.
    let presas = vec![
        presa_de_edad(Especie::Conejo, 1, 400),
        presa_de_edad(Especie::Conejo, 2, 401),
        presa_de_edad(Especie::Conejo, 3, 100),
    ];
    assert_eq!(candidatos_caza(&presas), vec![0, 1]);
    let mut con_cabra = presas.clone();
    con_cabra.push(presa_de_edad(Especie::Cabra, 4, 250));
    assert_eq!(candidatos_caza(&con_cabra), vec![3]);
    let jovenes = vec![presa_de_edad(Especie::Conejo, 5, 10)];
    assert!(candidatos_caza(&jovenes).is_empty());
}

#[test]
fn simulacion_inicial() {
    let mut fija = FuenteFija { eleccion: 0 };
    let sim = Simulacion::new(&mut fija);
    assert_eq!(sim.dia(), 0);
    assert_eq!(sim.contar_especies(), (60, 25));
    assert_eq!(sim.siguiente_id(), 85);
    assert_eq!(sim.depredador().reserva_comida_mg, 900_000_000);
    assert!(sim.depredador().vivo);
    for (k, p) in sim.presas().iter().enumerate() {
        assert_eq!(p.id(), k as u32);
        assert_eq!(p.edad(), 0);
    }
    comprobar_poblacion(&sim);
}

#[test]
fn reserva_se_agota_sin_presas() {
    let mut fija = FuenteFija { eleccion: 0 };
    let mut sim = Simulacion::con_poblacion(0, 0, 900_000_000, &mut fija);
    for _ in 0..180 {
        sim.avanzar_dia(&mut fija);
        assert!(sim.depredador().vivo);
    }
    assert_eq!(sim.dia(), 180);
    assert_eq!(sim.depredador().reserva_comida_mg, 0);
    sim.avanzar_dia(&mut fija);
    assert_eq!(sim.dia(), 181);
    assert!(!sim.depredador().vivo);
    assert_eq!(sim.depredador().reserva_comida_mg, 0);
    sim.avanzar_dia(&mut fija);
    assert_eq!(sim.dia(), 181);
}

#[test]
fn dias_tranquilos_conservan_la_poblacion() {
    let mut fija = FuenteFija { eleccion: 0 };
    let mut sim = Simulacion::new(&mut fija);
    let ids: Vec<u32> = sim.presas().iter().map(|p| p.id()).collect();
    for _ in 0..100 {
        sim.avanzar_dia(&mut fija);
    }
    assert_eq!(sim.presas().len(), 85);
    assert_eq!(sim.presas().iter().map(|p| p.id()).collect::<Vec<u32>>(), ids);
    assert!(sim.presas().iter().all(|p| p.edad() == 100));
    assert_eq!(sim.depredador().reserva_comida_mg, 900_000_000 - 100 * 5_000_000);
    assert_eq!(sim.siguiente_id(), 85);
    assert_eq!(sim.contar_especies(), (60, 25));
}

#[test]
fn una_corrida_mantiene_los_invariantes() {
    let mut semilla = FuenteSemilla::new(2024);
    let mut sim = Simulacion::new(&mut semilla);
    let mut emitidos: Vec<u32> = sim.presas().iter().map(|p| p.id()).collect();
    for _ in 0..600 {
        let antes = sim.siguiente_id();
        let previos: Vec<u32> = sim.presas().iter().map(|p| p.id()).collect();
        sim.avanzar_dia(&mut semilla);
        assert!(sim.siguiente_id() >= antes);
        comprobar_poblacion(&sim);
        for p in sim.presas() {
            if !previos.contains(&p.id()) {
                assert!(p.id() >= antes);
                assert!(!emitidos.contains(&p.id()));
                emitidos.push(p.id());
            }
        }
        let (conejos, cabras) = sim.contar_especies();
        assert_eq!(conejos + cabras, sim.presas().len());
        if !sim.depredador().vivo {
            break;
        }
    }
}

#[test]
fn fuente_semilla_respeta_sus_limites() {
    let mut s = FuenteSemilla::new(1);
    for _ in 0..100 {
        assert!(s.probabilidad(1, 1));
        assert!(!s.probabilidad(0, 5));
        let r = s.rango(3, 6);
        assert!((3..=6).contains(&r));
        assert_eq!(s.rango(4, 4), 4);
        assert_eq!(s.elegir(&vec![9]), 9);
        let e = s.elegir(&vec![5, 7]);
        assert!(e == 5 || e == 7);
    }
    let mut vistos = [false; 4];
    for _ in 0..200 {
        vistos[(s.rango(0, 3)) as usize] = true;
    }
    assert!(vistos.iter().all(|v| *v));
}

#[test]
fn fuente_semilla_repite_la_corrida() {
    let mut a = FuenteSemilla::new(99);
    let mut b = FuenteSemilla::new(99);
    let mut sa = Simulacion::new(&mut a);
    let mut sb = Simulacion::new(&mut b);
    for _ in 0..200 {
        sa.avanzar_dia(&mut a);
        sb.avanzar_dia(&mut b);
    }
    let ia: Vec<(u32, u32)> = sa.presas().iter().map(|p| (p.id(), p.edad())).collect();
    let ib: Vec<(u32, u32)> = sb.presas().iter().map(|p| (p.id(), p.edad())).collect();
    assert_eq!(ia, ib);
    assert_eq!(sa.depredador().reserva_comida_mg, sb.depredador().reserva_comida_mg);
}

#[test]
fn nacer_con_fija_el_sexo() {
    let m = Presa::nacer_con(Especie::Conejo, 4, true);
    assert_eq!(m.sexo(), Sexo::Macho);
    assert_eq!(m.id(), 4);
    assert_eq!(m.edad(), 0);
    assert_eq!(m.peso(), peso_en_edad_mg(Especie::Conejo, 0));
    let h = Presa::nacer_con(Especie::Cabra, 5, false);
    assert_eq!(h.sexo(), Sexo::Hembra);
    assert_eq!(h.especie(), Especie::Cabra);
}

#[test]
fn camada_sigue_los_sorteos() {
    let mut fija = FuenteFija { eleccion: 0 };
    let madura = presa_de_edad(Especie::Cabra, 1, 300);
    let mut next_id = 50u32;
    let crias = madura.camada(true, 2, &mut fija, &mut next_id);
    assert_eq!(crias.len(), 2);
    assert_eq!(crias[0].id(), 50);
    assert_eq!(crias[1].id(), 51);
    assert!(crias.iter().all(|c| c.especie() == Especie::Cabra && c.edad() == 0 && c.esta_viva()));
    assert_eq!(next_id, 52);
    assert!(madura.camada(false, 2, &mut fija, &mut next_id).is_empty());
    assert_eq!(next_id, 52);
    let joven = presa_de_edad(Especie::Cabra, 2, 299);
    assert!(joven.camada(true, 2, &mut fija, &mut next_id).is_empty());
    assert_eq!(next_id, 52);
    let macho = Presa::nacer_con(Especie::Conejo, 3, true);
    assert!(macho.camada(true, 4, &mut fija, &mut next_id).is_empty());
}

#[test]
fn cazar_en_quita_la_indicada() {
    let mut presas = vec![
        presa_de_edad(Especie::Conejo, 1, 10),
        presa_de_edad(Especie::Conejo, 2, 20),
        presa_de_edad(Especie::Conejo, 3, 30),
    ];
    let peso = presas[1].peso();
    let mut d = Depredador::new(100);
    d.cazar_en(&mut presas, 1);
    assert_eq!(presas.iter().map(|p| p.id()).collect::<Vec<u32>>(), vec![1, 3]);
    assert_eq!(d.reserva_comida_mg, 100 + peso);
    assert!(d.vivo);
}

#[test]
fn pasar_dia_presas_con_enfermedades_dadas() {
    let mut fija = FuenteFija { eleccion: 0 };
    let actuales = vec![
        presa_de_edad(Especie::Conejo, 1, 10),
        presa_de_edad(Especie::Conejo, 2, 1825),
        presa_de_edad(Especie::Cabra, 3, 40),
        presa_de_edad(Especie::Cabra, 4, 50),
    ];
    let mut next_id = 5u32;
    let r = pasar_dia_presas(&actuales, &vec![false, false, true, false], &mut fija, &mut next_id);
    // The rabbit past its maximum age and the sick goat are gone.
    assert_eq!(r.iter().map(|p| (p.id(), p.edad())).collect::<Vec<(u32, u32)>>(), vec![(1, 11), (4, 51)]);
    assert_eq!(next_id, 5);
}

#[test]
fn pasar_dia_presas_anade_las_crias_al_final() {
    let mut semilla = FuenteSemilla::new(3);
    let madres: Vec<Presa> = (0..40u32).map(|k| presa_de_edad(Especie::Conejo, k, 100)).collect();
    let mut next_id = 40u32;
    let mut nacidas = 0;
    for _ in 0..5 {
        let antes = next_id;
        let r = pasar_dia_presas(&madres, &vec![false; 40], &mut semilla, &mut next_id);
        assert_eq!(r.len(), 40 + (next_id - antes) as usize);
        for (k, p) in r.iter().enumerate() {
            if k < 40 {
                assert_eq!(p.id(), k as u32);
                assert_eq!(p.edad(), 101);
            } else {
                assert_eq!(p.id(), antes + (k - 40) as u32);
                assert_eq!(p.edad(), 0);
            }
        }
        nacidas += next_id - antes;
    }
    assert!(nacidas > 0);
}
