use hermanar::base::Database;
use hermanar::cuotas::{
    create_cuota, delete_cuota, generar_cuotas_trimestre, get_all_cuotas, get_cuotas_by_hermano,
    get_cuotas_by_year, get_cuotas_pendientes, get_estadisticas_cuotas, marcar_cuota_pagada,
    update_cuota,
};
use hermanar::error::{ClaseError, DbError, Restriccion};
use hermanar::hermanos::{create_hermano, set_hermano_inactive};
use hermanar::modelo::{Cuota, EstadisticasCuotas, Hermano};

fn socio(numero: &str) -> Hermano {
    Hermano {
        id: None,
        numero_hermano: numero.to_string(),
        nombre: "Ana".to_string(),
        primer_apellido: "Ruiz".to_string(),
        segundo_apellido: None,
        dni: None,
        fecha_nacimiento: None,
        localidad_nacimiento: None,
        provincia_nacimiento: None,
        fecha_alta: "2024-01-15".to_string(),
        familia_id: None,
        telefono: None,
        email: None,
        direccion: None,
        localidad: None,
        provincia: None,
        codigo_postal: None,
        parroquia_bautismo: None,
        localidad_bautismo: None,
        provincia_bautismo: None,
        autorizacion_menores: false,
        nombre_representante_legal: None,
        dni_representante_legal: None,
        hermano_aval_1: None,
        hermano_aval_2: None,
        activo: true,
        observaciones: None,
        created_at: None,
        updated_at: None,
    }
}

fn cuota(hermano_id: i32, anio: i32, trimestre: i32, importe: u64, pagado: bool) -> Cuota {
    Cuota {
        id: None,
        hermano_id,
        anio,
        trimestre,
        importe,
        pagado,
        fecha_pago: None,
        metodo_pago: None,
        observaciones: None,
        created_at: None,
        updated_at: None,
    }
}

fn registro_con(socios: usize) -> Database {
    let mut db = Database::new();
    for _ in 0..socios {
        create_hermano(&mut db, &socio("")).unwrap();
    }
    db
}

fn claves(lista: &[Cuota]) -> Vec<(i32, i32, i32)> {
    lista.iter().map(|c| (c.anio, c.trimestre, c.hermano_id)).collect()
}

#[test]
fn generar_dos_veces_no_duplica() {
    let mut db = registro_con(4);
    set_hermano_inactive(&mut db, 3);
    create_cuota(&mut db, &cuota(2, 2025, 1, 10, true)).unwrap();
    assert_eq!(generar_cuotas_trimestre(&mut db, 2025, 1, 50), Ok(2));
    assert_eq!(get_all_cuotas(&db).len(), 3);
    assert_eq!(generar_cuotas_trimestre(&mut db, 2025, 1, 50), Ok(0));
    assert_eq!(generar_cuotas_trimestre(&mut db, 2025, 1, 75), Ok(0));
    assert_eq!(get_all_cuotas(&db).len(), 3);
    assert_eq!(generar_cuotas_trimestre(&mut db, 2025, 2, 50), Ok(3));
}

#[test]
fn las_cuotas_generadas_nacen_sin_pagar() {
    let mut db = registro_con(2);
    db.fijar_reloj("2025-01-02 03:04:05");
    assert_eq!(generar_cuotas_trimestre(&mut db, 2025, 3, 1250), Ok(2));
    let todas = get_all_cuotas(&db);
    assert_eq!(
        todas,
        vec![
            Cuota {
                id: Some(1),
                hermano_id: 1,
                anio: 2025,
                trimestre: 3,
                importe: 1250,
                pagado: false,
                fecha_pago: None,
                metodo_pago: None,
                observaciones: None,
                created_at: Some("2025-01-02 03:04:05".to_string()),
                updated_at: Some("2025-01-02 03:04:05".to_string()),
            },
            Cuota {
                id: Some(2),
                hermano_id: 2,
                anio: 2025,
                trimestre: 3,
                importe: 1250,
                pagado: false,
                fecha_pago: None,
                metodo_pago: None,
                observaciones: None,
                created_at: Some("2025-01-02 03:04:05".to_string()),
                updated_at: Some("2025-01-02 03:04:05".to_string()),
            },
        ]
    );
}

#[test]
fn trimestre_fuera_de_rango_no_genera() {
    let mut db = registro_con(2);
    for t in [0, 5, -1, 40] {
        let r = generar_cuotas_trimestre(&mut db, 2025, t, 50);
        assert_eq!(r, Err(DbError::TrimestreInvalido));
        assert_eq!(r.unwrap_err().clase(), ClaseError::Validacion);
    }
    assert!(get_all_cuotas(&db).is_empty());
    assert_eq!(generar_cuotas_trimestre(&mut db, 2025, 4, 50), Ok(2));
}

#[test]
fn generar_sin_hermanos_activos() {
    let mut db = registro_con(1);
    set_hermano_inactive(&mut db, 1);
    assert_eq!(generar_cuotas_trimestre(&mut db, 2025, 1, 50), Ok(0));
    assert!(get_all_cuotas(&db).is_empty());
}

#[test]
fn alta_de_cuota_guarda_lo_escrito() {
    let mut db = registro_con(1);
    db.fijar_reloj("t0");
    let mut c = cuota(1, 2024, 2, 3000, true);
    c.id = Some(70);
    c.fecha_pago = Some("2024-04-01".to_string());
    c.metodo_pago = Some("".to_string());
    c.observaciones = Some("  ".to_string());
    c.created_at = Some("antes".to_string());
    assert_eq!(create_cuota(&mut db, &c), Ok(1));
    let leida = &get_all_cuotas(&db)[0];
    assert_eq!(leida.id, Some(1));
    assert_eq!(leida.importe, 3000);
    assert!(leida.pagado);
    assert_eq!(leida.fecha_pago, Some("2024-04-01".to_string()));
    assert_eq!(leida.metodo_pago, Some("".to_string()));
    assert_eq!(leida.observaciones, Some("  ".to_string()));
    assert_eq!(leida.created_at, Some("t0".to_string()));
    assert_eq!(leida.updated_at, Some("t0".to_string()));
}

#[test]
fn la_tabla_de_cuotas_rechaza_lo_que_rompe_sus_reglas() {
    let mut db = registro_con(1);
    assert_eq!(
        create_cuota(&mut db, &cuota(1, 2025, 5, 50, false)),
        Err(DbError::Almacenamiento(Restriccion::TrimestreFueraDeRango))
    );
    assert_eq!(
        create_cuota(&mut db, &cuota(1, 2025, 0, 50, false)),
        Err(DbError::Almacenamiento(Restriccion::TrimestreFueraDeRango))
    );
    assert_eq!(
        create_cuota(&mut db, &cuota(2, 2025, 1, 50, false)),
        Err(DbError::Almacenamiento(Restriccion::HermanoInexistente))
    );
    assert_eq!(create_cuota(&mut db, &cuota(1, 2025, 1, 50, false)), Ok(1));
    assert_eq!(
        create_cuota(&mut db, &cuota(1, 2025, 1, 60, true)),
        Err(DbError::Almacenamiento(Restriccion::CuotaRepetida))
    );
    assert_eq!(create_cuota(&mut db, &cuota(1, 2025, 2, 50, false)), Ok(2));
    assert_eq!(create_cuota(&mut db, &cuota(1, 2024, 1, 50, false)), Ok(3));
    assert_eq!(get_all_cuotas(&db).len(), 3);
}

#[test]
fn cambio_de_cuota() {
    let mut db = registro_con(2);
    db.fijar_reloj("t0");
    let a = create_cuota(&mut db, &cuota(1, 2025, 1, 50, false)).unwrap();
    let b = create_cuota(&mut db, &cuota(1, 2025, 2, 50, false)).unwrap();
    db.fijar_reloj("t1");
    let mut cambio = cuota(2, 2026, 4, 80, true);
    cambio.observaciones = Some("a mano".to_string());
    assert_eq!(update_cuota(&mut db, a, &cambio), Ok(()));
    let leida = get_cuotas_by_hermano(&db, 2);
    assert_eq!(leida.len(), 1);
    assert_eq!(leida[0].id, Some(a));
    assert_eq!(claves(&leida), [(2026, 4, 2)]);
    assert_eq!(leida[0].importe, 80);
    assert_eq!(leida[0].observaciones, Some("a mano".to_string()));
    assert_eq!(leida[0].created_at, Some("t0".to_string()));
    assert_eq!(leida[0].updated_at, Some("t1".to_string()));
    assert_eq!(
        update_cuota(&mut db, a, &cuota(1, 2025, 2, 50, false)),
        Err(DbError::Almacenamiento(Restriccion::CuotaRepetida))
    );
    assert_eq!(
        update_cuota(&mut db, a, &cuota(1, 2025, 9, 50, false)),
        Err(DbError::Almacenamiento(Restriccion::TrimestreFueraDeRango))
    );
    assert_eq!(
        update_cuota(&mut db, a, &cuota(3, 2025, 1, 50, false)),
        Err(DbError::Almacenamiento(Restriccion::HermanoInexistente))
    );
    assert_eq!(update_cuota(&mut db, b, &cuota(1, 2025, 2, 55, false)), Ok(()));
    assert_eq!(update_cuota(&mut db, 40, &cuota(9, 2025, 9, 55, false)), Ok(()));
    assert_eq!(claves(&get_all_cuotas(&db)), [(2026, 4, 2), (2025, 2, 1)]);
}

#[test]
fn marcar_pagada_no_toca_el_importe() {
    let mut db = registro_con(1);
    db.fijar_reloj("t0");
    let mut c = cuota(1, 2025, 1, 4321, false);
    c.observaciones = Some("pendiente de banco".to_string());
    let a = create_cuota(&mut db, &c).unwrap();
    let b = create_cuota(&mut db, &cuota(1, 2025, 2, 99, false)).unwrap();
    db.fijar_reloj("t1");
    marcar_cuota_pagada(&mut db, a, "2025-02-03", "transferencia");
    let todas = get_all_cuotas(&db);
    let pagada = todas.iter().find(|c| c.id == Some(a)).unwrap();
    assert_eq!(pagada.importe, 4321);
    assert!(pagada.pagado);
    assert_eq!(pagada.fecha_pago, Some("2025-02-03".to_string()));
    assert_eq!(pagada.metodo_pago, Some("transferencia".to_string()));
    assert_eq!(pagada.observaciones, Some("pendiente de banco".to_string()));
    assert_eq!(pagada.created_at, Some("t0".to_string()));
    assert_eq!(pagada.updated_at, Some("t1".to_string()));
    let otra = todas.iter().find(|c| c.id == Some(b)).unwrap();
    assert!(!otra.pagado);
    assert_eq!(otra.updated_at, Some("t0".to_string()));
    marcar_cuota_pagada(&mut db, a, "2025-03-03", "efectivo");
    let otra_vez = get_all_cuotas(&db);
    let pagada = otra_vez.iter().find(|c| c.id == Some(a)).unwrap();
    assert_eq!(pagada.importe, 4321);
    assert_eq!(pagada.fecha_pago, Some("2025-03-03".to_string()));
    assert_eq!(pagada.metodo_pago, Some("efectivo".to_string()));
    marcar_cuota_pagada(&mut db, 50, "2025-03-03", "efectivo");
    assert_eq!(get_all_cuotas(&db).len(), 2);
}

#[test]
fn borrado_de_cuota() {
    let mut db = registro_con(1);
    let a = create_cuota(&mut db, &cuota(1, 2025, 1, 50, false)).unwrap();
    let b = create_cuota(&mut db, &cuota(1, 2025, 2, 50, false)).unwrap();
    delete_cuota(&mut db, a);
    assert_eq!(claves(&get_all_cuotas(&db)), [(2025, 2, 1)]);
    delete_cuota(&mut db, a);
    assert_eq!(get_all_cuotas(&db).len(), 1);
    assert_eq!(create_cuota(&mut db, &cuota(1, 2025, 1, 50, false)), Ok(b + 1));
}

#[test]
fn cada_listado_de_cuotas_tiene_su_orden() {
    let mut db = registro_con(3);
    for (h, a, t, pagado) in [
        (2, 2024, 4, true),
        (1, 2025, 1, false),
        (3, 2025, 1, true),
        (2, 2025, 1, false),
        (1, 2024, 4, false),
        (1, 2025, 3, true),
        (3, 2023, 2, false),
    ] {
        create_cuota(&mut db, &cuota(h, a, t, 50, pagado)).unwrap();
    }
    assert_eq!(
        claves(&get_all_cuotas(&db)),
        [
            (2025, 3, 1),
            (2025, 1, 1),
            (2025, 1, 2),
            (2025, 1, 3),
            (2024, 4, 1),
            (2024, 4, 2),
            (2023, 2, 3)
        ]
    );
    assert_eq!(claves(&get_cuotas_by_hermano(&db, 1)), [(2025, 3, 1), (2025, 1, 1), (2024, 4, 1)]);
    assert!(get_cuotas_by_hermano(&db, 9).is_empty());
    assert_eq!(
        claves(&get_cuotas_by_year(&db, 2025)),
        [(2025, 1, 1), (2025, 1, 2), (2025, 1, 3), (2025, 3, 1)]
    );
    assert!(get_cuotas_by_year(&db, 2022).is_empty());
    assert_eq!(
        claves(&get_cuotas_pendientes(&db)),
        [(2023, 2, 3), (2024, 4, 1), (2025, 1, 1), (2025, 1, 2)]
    );
}

#[test]
fn estadisticas_de_un_anio() {
    let mut db = registro_con(5);
    create_cuota(&mut db, &cuota(1, 2025, 1, 50, true)).unwrap();
    create_cuota(&mut db, &cuota(2, 2025, 1, 50, true)).unwrap();
    create_cuota(&mut db, &cuota(3, 2025, 1, 100, true)).unwrap();
    create_cuota(&mut db, &cuota(4, 2025, 1, 50, false)).unwrap();
    create_cuota(&mut db, &cuota(1, 2025, 2, 70, false)).unwrap();
    create_cuota(&mut db, &cuota(5, 2024, 1, 999, true)).unwrap();
    create_cuota(&mut db, &cuota(2, 2024, 1, 999, false)).unwrap();
    let e = get_estadisticas_cuotas(&db, Some(2025));
    assert_eq!(e.total_recaudado, 200);
    assert_eq!(e.cuotas_pendientes, 2);
    assert_eq!(e.cuotas_pagadas, 3);
    assert_eq!(e.hermanos_al_dia, 2);
    assert_eq!(e.hermanos_morosos, 2);
}

#[test]
fn estadisticas_de_todos_los_anios() {
    let mut db = registro_con(5);
    create_cuota(&mut db, &cuota(1, 2025, 1, 50, true)).unwrap();
    create_cuota(&mut db, &cuota(2, 2025, 1, 50, true)).unwrap();
    create_cuota(&mut db, &cuota(1, 2025, 2, 70, false)).unwrap();
    create_cuota(&mut db, &cuota(5, 2024, 1, 999, true)).unwrap();
    create_cuota(&mut db, &cuota(2, 2024, 1, 999, false)).unwrap();
    assert_eq!(
        get_estadisticas_cuotas(&db, None),
        EstadisticasCuotas {
            total_recaudado: 1099,
            cuotas_pendientes: 2,
            cuotas_pagadas: 3,
            hermanos_al_dia: 1,
            hermanos_morosos: 2,
        }
    );
    assert_eq!(
        get_estadisticas_cuotas(&db, Some(2024)),
        EstadisticasCuotas {
            total_recaudado: 999,
            cuotas_pendientes: 1,
            cuotas_pagadas: 1,
            hermanos_al_dia: 1,
            hermanos_morosos: 1,
        }
    );
}

#[test]
fn estadisticas_sin_cuotas() {
    let db = registro_con(3);
    let vacias = EstadisticasCuotas {
        total_recaudado: 0,
        cuotas_pendientes: 0,
        cuotas_pagadas: 0,
        hermanos_al_dia: 0,
        hermanos_morosos: 0,
    };
    assert_eq!(get_estadisticas_cuotas(&db, None), vacias);
    assert_eq!(get_estadisticas_cuotas(&db, Some(2025)), vacias);
    assert_eq!(get_estadisticas_cuotas(&Database::new(), None), vacias);
}

#[test]
fn clasificacion_de_un_hermano() {
    let mut db = registro_con(3);
    let a = create_cuota(&mut db, &cuota(1, 2025, 1, 50, false)).unwrap();
    create_cuota(&mut db, &cuota(1, 2025, 2, 50, true)).unwrap();
    create_cuota(&mut db, &cuota(2, 2025, 1, 50, true)).unwrap();
    let e = get_estadisticas_cuotas(&db, Some(2025));
    assert_eq!((e.hermanos_al_dia, e.hermanos_morosos), (1, 1));
    marcar_cuota_pagada(&mut db, a, "2025-05-05", "efectivo");
    let e = get_estadisticas_cuotas(&db, Some(2025));
    assert_eq!((e.hermanos_al_dia, e.hermanos_morosos), (2, 0));
    let e = get_estadisticas_cuotas(&db, Some(2024));
    assert_eq!((e.hermanos_al_dia, e.hermanos_morosos), (0, 0));
}

#[test]
fn los_importes_grandes_se_suman_sin_perdida() {
    let mut db = registro_con(2);
    create_cuota(&mut db, &cuota(1, 2025, 1, u64::MAX, true)).unwrap();
    create_cuota(&mut db, &cuota(2, 2025, 1, u64::MAX, true)).unwrap();
    let e = get_estadisticas_cuotas(&db, None);
    assert_eq!(e.total_recaudado, 2 * (u64::MAX as u128));
}
