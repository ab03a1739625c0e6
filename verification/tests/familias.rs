use hermanar::base::Database;
use hermanar::error::{ClaseError, DbError, Restriccion};
use hermanar::familias::{
    create_familia, delete_familia, get_all_familias, get_familia_by_id, get_familia_stats,
    get_familia_with_address, get_familia_with_hermanos, nombre_de_hermano, search_familias,
    update_familia,
};
use hermanar::hermanos::{
    create_hermano, delete_hermano, set_hermano_inactive, update_hermano_familia,
};
use hermanar::modelo::{DireccionPrincipal, Familia, FamiliaConDireccion, Hermano};

fn familia_llamada(nombre: &str) -> Familia {
    Familia {
        id: None,
        nombre_familia: nombre.to_string(),
        hermano_direccion_id: None,
        created_at: None,
        updated_at: None,
    }
}

fn miembro(numero: &str, nombre: &str, familia_id: Option<i32>, activo: bool) -> Hermano {
    Hermano {
        id: None,
        numero_hermano: numero.to_string(),
        nombre: nombre.to_string(),
        primer_apellido: "Ruiz".to_string(),
        segundo_apellido: None,
        dni: None,
        fecha_nacimiento: None,
        localidad_nacimiento: None,
        provincia_nacimiento: None,
        fecha_alta: "2024-01-15".to_string(),
        familia_id,
        telefono: None,
        email: None,
        direccion: None,
        localidad: None,
        provincia: None,
        codigo_postal: None,
        parroquia_bautismo: None,
        localidad_bautismo: None,
        provincia_bautismo: None,
        autorizacion_menores: false,
        nombre_representante_legal: None,
        dni_representante_legal: None,
        hermano_aval_1: None,
        hermano_aval_2: None,
        activo,
        observaciones: None,
        created_at: None,
        updated_at: None,
    }
}

fn nombres(lista: &[Familia]) -> Vec<String> {
    lista.iter().map(|f| f.nombre_familia.clone()).collect()
}

#[test]
fn alta_de_familia_y_consulta() {
    let mut db = Database::new();
    db.fijar_reloj("2025-01-01 00:00:00");
    let mut f = familia_llamada("Ruiz Lara");
    f.hermano_direccion_id = Some(12);
    f.id = Some(40);
    let id = create_familia(&mut db, &f).unwrap();
    assert_eq!(id, 1);
    let leida = get_familia_by_id(&db, id).unwrap();
    assert_eq!(
        leida,
        Familia {
            id: Some(1),
            nombre_familia: "Ruiz Lara".to_string(),
            hermano_direccion_id: Some(12),
            created_at: Some("2025-01-01 00:00:00".to_string()),
            updated_at: Some("2025-01-01 00:00:00".to_string()),
        }
    );
    assert_eq!(get_familia_with_hermanos(&db, id), Some(leida));
    assert_eq!(get_familia_by_id(&db, 40), None);
    assert_eq!(get_familia_with_hermanos(&db, 40), None);
}

#[test]
fn nombre_de_familia_repetido_se_rechaza() {
    let mut db = Database::new();
    create_familia(&mut db, &familia_llamada("Ruiz")).unwrap();
    let r = create_familia(&mut db, &familia_llamada("Ruiz"));
    assert_eq!(r, Err(DbError::Almacenamiento(Restriccion::NombreFamiliaRepetido)));
    assert_eq!(get_all_familias(&db).len(), 1);
    assert_eq!(create_familia(&mut db, &familia_llamada("ruiz")), Ok(2));
}

#[test]
fn las_familias_se_listan_por_nombre() {
    let mut db = Database::new();
    for n in ["Soto", "Gil", "Álvarez", "Ruiz", "Gilabert", "gil"] {
        create_familia(&mut db, &familia_llamada(n)).unwrap();
    }
    assert_eq!(
        nombres(&get_all_familias(&db)),
        ["Gil", "Gilabert", "Ruiz", "Soto", "gil", "Álvarez"]
    );
    assert_eq!(nombres(&search_familias(&db, "Gil")), ["Gil", "Gilabert"]);
    assert_eq!(nombres(&search_familias(&db, "o")), ["Soto"]);
    assert_eq!(search_familias(&db, "").len(), 6);
    assert!(search_familias(&db, "Gilabertos").is_empty());
}

#[test]
fn cambio_de_familia() {
    let mut db = Database::new();
    db.fijar_reloj("t0");
    let a = create_familia(&mut db, &familia_llamada("Ruiz")).unwrap();
    let b = create_familia(&mut db, &familia_llamada("Soto")).unwrap();
    db.fijar_reloj("t1");
    let mut cambio = familia_llamada("Ruiz Lara");
    cambio.hermano_direccion_id = Some(5);
    assert_eq!(update_familia(&mut db, a, &cambio), Ok(()));
    let leida = get_familia_by_id(&db, a).unwrap();
    assert_eq!(leida.nombre_familia, "Ruiz Lara");
    assert_eq!(leida.hermano_direccion_id, Some(5));
    assert_eq!(leida.created_at, Some("t0".to_string()));
    assert_eq!(leida.updated_at, Some("t1".to_string()));
    assert_eq!(
        update_familia(&mut db, b, &familia_llamada("Ruiz Lara")),
        Err(DbError::Almacenamiento(Restriccion::NombreFamiliaRepetido))
    );
    assert_eq!(get_familia_by_id(&db, b).unwrap().nombre_familia, "Soto");
    assert_eq!(update_familia(&mut db, 9, &familia_llamada("Ruiz Lara")), Ok(()));
    assert_eq!(get_all_familias(&db).len(), 2);
}

#[test]
fn no_se_borra_una_familia_con_hermanos_activos() {
    let mut db = Database::new();
    let f = create_familia(&mut db, &familia_llamada("Ruiz")).unwrap();
    let h = create_hermano(&mut db, &miembro("00001", "Ana", Some(f), true)).unwrap();
    create_hermano(&mut db, &miembro("00002", "Blas", Some(f), false)).unwrap();
    let r = delete_familia(&mut db, f);
    assert_eq!(r, Err(DbError::FamiliaConHermanosActivos));
    assert_eq!(r.unwrap_err().clase(), ClaseError::Integridad);
    assert!(get_familia_by_id(&db, f).is_some());
    set_hermano_inactive(&mut db, h);
    assert_eq!(delete_familia(&mut db, f), Ok(()));
    assert_eq!(get_familia_by_id(&db, f), None);
}

#[test]
fn se_borra_la_familia_tras_trasladar_al_hermano() {
    let mut db = Database::new();
    let f = create_familia(&mut db, &familia_llamada("Ruiz")).unwrap();
    let g = create_familia(&mut db, &familia_llamada("Soto")).unwrap();
    let h = create_hermano(&mut db, &miembro("00001", "Ana", Some(f), true)).unwrap();
    assert_eq!(delete_familia(&mut db, f), Err(DbError::FamiliaConHermanosActivos));
    update_hermano_familia(&mut db, h, Some(g));
    assert_eq!(delete_familia(&mut db, f), Ok(()));
    assert_eq!(nombres(&get_all_familias(&db)), ["Soto"]);
    assert_eq!(delete_familia(&mut db, g), Err(DbError::FamiliaConHermanosActivos));
    delete_hermano(&mut db, h);
    assert_eq!(delete_familia(&mut db, g), Ok(()));
    assert_eq!(delete_familia(&mut db, g), Ok(()));
    assert!(get_all_familias(&db).is_empty());
}

#[test]
fn recuento_de_hermanos_de_una_familia() {
    let mut db = Database::new();
    let f = create_familia(&mut db, &familia_llamada("Ruiz")).unwrap();
    let g = create_familia(&mut db, &familia_llamada("Soto")).unwrap();
    create_hermano(&mut db, &miembro("00001", "Ana", Some(f), true)).unwrap();
    create_hermano(&mut db, &miembro("00002", "Blas", Some(f), false)).unwrap();
    create_hermano(&mut db, &miembro("00003", "Carla", Some(f), true)).unwrap();
    create_hermano(&mut db, &miembro("00004", "Dora", Some(99), true)).unwrap();
    create_hermano(&mut db, &miembro("00005", "Eva", None, true)).unwrap();
    assert_eq!(get_familia_stats(&db, f), (3, 2));
    assert_eq!(get_familia_stats(&db, g), (0, 0));
    assert_eq!(get_familia_stats(&db, 99), (0, 0));
}

#[test]
fn familia_con_su_direccion_principal() {
    let mut db = Database::new();
    let mut ana = miembro("00001", "Ana", None, true);
    ana.segundo_apellido = Some("Lara".to_string());
    ana.direccion = Some("Calle Feria 3".to_string());
    ana.telefono = Some("600123456".to_string());
    let a = create_hermano(&mut db, &ana).unwrap();
    let mut f = familia_llamada("Ruiz Lara");
    f.hermano_direccion_id = Some(a);
    let id = create_familia(&mut db, &f).unwrap();
    assert_eq!(
        get_familia_with_address(&db, id),
        Some(FamiliaConDireccion {
            id,
            nombre_familia: "Ruiz Lara".to_string(),
            hermano_direccion_id: Some(a),
            direccion_principal: Some(DireccionPrincipal {
                direccion: "Calle Feria 3".to_string(),
                telefono: Some("600123456".to_string()),
                email: None,
                nombre_hermano: "Ana Ruiz Lara".to_string(),
            }),
        })
    );
}

#[test]
fn familia_sin_direccion_principal() {
    let mut db = Database::new();
    let sin_senas = create_hermano(&mut db, &miembro("00001", "Ana", None, true)).unwrap();
    let sola = create_familia(&mut db, &familia_llamada("Sola")).unwrap();
    let mut f = familia_llamada("Sin señas");
    f.hermano_direccion_id = Some(sin_senas);
    let sin = create_familia(&mut db, &f).unwrap();
    let mut g = familia_llamada("Colgada");
    g.hermano_direccion_id = Some(77);
    let colgada = create_familia(&mut db, &g).unwrap();
    for id in [sola, sin, colgada] {
        let leida = get_familia_with_address(&db, id).unwrap();
        assert_eq!(leida.id, id);
        assert_eq!(leida.direccion_principal, None);
    }
    assert_eq!(get_familia_with_address(&db, colgada).unwrap().hermano_direccion_id, Some(77));
    assert_eq!(get_familia_with_address(&db, 50), None);
}

#[test]
fn nombre_completo_de_un_hermano() {
    let mut h = miembro("00001", "Ana", None, true);
    assert_eq!(nombre_de_hermano(&h), "Ana Ruiz");
    h.segundo_apellido = Some("Lara".to_string());
    assert_eq!(nombre_de_hermano(&h), "Ana Ruiz Lara");
}
