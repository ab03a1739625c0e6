use hermanar::base::Database;
use hermanar::cuotas::{create_cuota, get_all_cuotas};
use hermanar::error::{ClaseError, DbError, Restriccion};
use hermanar::hermanos::{
    create_hermano, delete_hermano, get_all_hermanos, get_hermano_by_id, get_hermanos_activos,
    get_hermanos_by_familia, search_hermanos, set_hermano_inactive, update_hermano,
    update_hermano_familia,
};
use hermanar::modelo::{Cuota, Hermano};

fn hermano_nuevo(numero: &str, nombre: &str, apellido: &str) -> Hermano {
    Hermano {
        id: None,
        numero_hermano: numero.to_string(),
        nombre: nombre.to_string(),
        primer_apellido: apellido.to_string(),
        segundo_apellido: None,
        dni: None,
        fecha_nacimiento: None,
        localidad_nacimiento: None,
        provincia_nacimiento: None,
        fecha_alta: "2024-01-15".to_string(),
        familia_id: None,
        telefono: None,
        email: None,
        direccion: None,
        localidad: None,
        provincia: None,
        codigo_postal: None,
        parroquia_bautismo: None,
        localidad_bautismo: None,
        provincia_bautismo: None,
        autorizacion_menores: false,
        nombre_representante_legal: None,
        dni_representante_legal: None,
        hermano_aval_1: None,
        hermano_aval_2: None,
        activo: true,
        observaciones: None,
        created_at: None,
        updated_at: None,
    }
}

fn cuota_de(hermano_id: i32, anio: i32, trimestre: i32) -> Cuota {
    Cuota {
        id: None,
        hermano_id,
        anio,
        trimestre,
        importe: 50,
        pagado: false,
        fecha_pago: None,
        metodo_pago: None,
        observaciones: None,
        created_at: None,
        updated_at: None,
    }
}

fn numeros(lista: &[Hermano]) -> Vec<String> {
    lista.iter().map(|h| h.numero_hermano.clone()).collect()
}

#[test]
fn numero_en_blanco_se_genera_de_la_cuenta() {
    let mut db = Database::new();
    let a = create_hermano(&mut db, &hermano_nuevo("", "Ana", "Ruiz")).unwrap();
    let b = create_hermano(&mut db, &hermano_nuevo("", "Blas", "Soto")).unwrap();
    assert_eq!(a, 1);
    assert_eq!(b, 2);
    assert_eq!(get_hermano_by_id(&db, a).unwrap().numero_hermano, "00001");
    assert_eq!(get_hermano_by_id(&db, b).unwrap().numero_hermano, "00002");
}

#[test]
fn numero_escrito_se_conserva() {
    let mut db = Database::new();
    let id = create_hermano(&mut db, &hermano_nuevo("00042", "Ana", "Ruiz")).unwrap();
    assert_eq!(get_hermano_by_id(&db, id).unwrap().numero_hermano, "00042");
}

#[test]
fn el_numero_se_valida_tal_como_se_escribe() {
    let mut db = Database::new();
    for malo in [" 00042 ", "  00042\t", " 00042", "00042 ", "   ", " ", "\t"] {
        let r = create_hermano(&mut db, &hermano_nuevo(malo, "Ana", "Ruiz"));
        assert_eq!(r, Err(DbError::NumeroHermanoInvalido), "{:?}", malo);
    }
    assert!(get_all_hermanos(&db).is_empty());
    assert_eq!(create_hermano(&mut db, &hermano_nuevo("00042", "Ana", "Ruiz")), Ok(1));
}

#[test]
fn numero_mal_formado_se_rechaza() {
    let mut db = Database::new();
    for malo in ["42", "123456", "0004a", "０００４２", "1234 ", "+1234", "12.45"] {
        let r = create_hermano(&mut db, &hermano_nuevo(malo, "Ana", "Ruiz"));
        assert_eq!(r, Err(DbError::NumeroHermanoInvalido), "{:?}", malo);
        assert_eq!(r.unwrap_err().clase(), ClaseError::Validacion);
    }
    assert!(get_all_hermanos(&db).is_empty());
}

#[test]
fn sin_nombre_o_sin_primer_apellido_no_hay_alta() {
    let mut db = Database::new();
    for (nombre, apellido) in [("", "Ruiz"), ("Ana", ""), ("", "")] {
        for numero in ["", "00042", "42"] {
            let r = create_hermano(&mut db, &hermano_nuevo(numero, nombre, apellido));
            assert_eq!(r, Err(DbError::NombreObligatorio), "{:?} {:?}", nombre, apellido);
            assert_eq!(r.unwrap_err().clase(), ClaseError::Validacion);
        }
    }
    assert!(get_all_hermanos(&db).is_empty());
    assert_eq!(create_hermano(&mut db, &hermano_nuevo("", " ", " ")), Ok(1));
}

#[test]
fn sin_nombre_o_sin_primer_apellido_no_hay_cambio() {
    let mut db = Database::new();
    db.fijar_reloj("t0");
    let id = create_hermano(&mut db, &hermano_nuevo("00001", "Ana", "Ruiz")).unwrap();
    db.fijar_reloj("t1");
    for (nombre, apellido) in [("", "Ruiz"), ("Ana", ""), ("", "")] {
        let cambio = hermano_nuevo("00002", nombre, apellido);
        assert_eq!(update_hermano(&mut db, id, &cambio), Err(DbError::NombreObligatorio));
        assert_eq!(update_hermano(&mut db, 99, &cambio), Err(DbError::NombreObligatorio));
    }
    let leido = get_hermano_by_id(&db, id).unwrap();
    assert_eq!(leido.numero_hermano, "00001");
    assert_eq!(leido.nombre, "Ana");
    assert_eq!(leido.updated_at, Some("t0".to_string()));
}

#[test]
fn numero_repetido_se_rechaza() {
    let mut db = Database::new();
    create_hermano(&mut db, &hermano_nuevo("00002", "Ana", "Ruiz")).unwrap();
    let r = create_hermano(&mut db, &hermano_nuevo("", "Blas", "Soto"));
    assert_eq!(r, Err(DbError::Almacenamiento(Restriccion::NumeroHermanoRepetido)));
    assert_eq!(r.unwrap_err().clase(), ClaseError::Almacenamiento);
    assert_eq!(get_all_hermanos(&db).len(), 1);
}

#[test]
fn los_textos_en_blanco_se_guardan_ausentes() {
    let mut db = Database::new();
    let mut h = hermano_nuevo("00007", "Ana", "Ruiz");
    h.segundo_apellido = Some("".to_string());
    h.dni = Some("   ".to_string());
    h.telefono = Some(" 600 123 456 ".to_string());
    h.email = Some("\t\n".to_string());
    h.hermano_aval_1 = Some(" ".to_string());
    h.hermano_aval_2 = Some("00001".to_string());
    h.observaciones = Some("\u{a0}\u{3000}".to_string());
    let id = create_hermano(&mut db, &h).unwrap();
    let leido = get_hermano_by_id(&db, id).unwrap();
    assert_eq!(leido.segundo_apellido, None);
    assert_eq!(leido.dni, None);
    assert_eq!(leido.telefono, Some(" 600 123 456 ".to_string()));
    assert_eq!(leido.email, None);
    assert_eq!(leido.hermano_aval_1, None);
    assert_eq!(leido.hermano_aval_2, Some("00001".to_string()));
    assert_eq!(leido.observaciones, None);
}

#[test]
fn alta_y_consulta_devuelven_lo_escrito() {
    let mut db = Database::new();
    db.fijar_reloj("2025-03-01 10:00:00");
    let mut h = hermano_nuevo("00042", "Ana", "Ruiz");
    h.id = Some(999);
    h.segundo_apellido = Some("Lara".to_string());
    h.dni = Some("12345678Z".to_string());
    h.familia_id = Some(3);
    h.autorizacion_menores = true;
    h.created_at = Some("ayer".to_string());
    let id = create_hermano(&mut db, &h).unwrap();
    let leido = get_hermano_by_id(&db, id).unwrap();
    let mut esperado = hermano_nuevo("00042", "Ana", "Ruiz");
    esperado.id = Some(id);
    esperado.segundo_apellido = Some("Lara".to_string());
    esperado.dni = Some("12345678Z".to_string());
    esperado.familia_id = Some(3);
    esperado.autorizacion_menores = true;
    esperado.created_at = Some("2025-03-01 10:00:00".to_string());
    esperado.updated_at = Some("2025-03-01 10:00:00".to_string());
    assert_eq!(leido, esperado);
}

#[test]
fn consulta_de_un_hermano_que_no_existe() {
    let mut db = Database::new();
    create_hermano(&mut db, &hermano_nuevo("", "Ana", "Ruiz")).unwrap();
    assert_eq!(get_hermano_by_id(&db, 2), None);
    assert_eq!(get_hermano_by_id(&db, 0), None);
}

#[test]
fn los_listados_van_por_numero() {
    let mut db = Database::new();
    create_hermano(&mut db, &hermano_nuevo("00300", "Ana", "Ruiz")).unwrap();
    create_hermano(&mut db, &hermano_nuevo("00100", "Blas", "Soto")).unwrap();
    let c = create_hermano(&mut db, &hermano_nuevo("00200", "Carla", "Vega")).unwrap();
    assert_eq!(numeros(&get_all_hermanos(&db)), ["00100", "00200", "00300"]);
    set_hermano_inactive(&mut db, c);
    assert_eq!(numeros(&get_hermanos_activos(&db)), ["00100", "00300"]);
    assert_eq!(numeros(&get_all_hermanos(&db)), ["00100", "00200", "00300"]);
}

#[test]
fn la_busqueda_mira_nombre_apellidos_numero_y_dni() {
    let mut db = Database::new();
    let mut a = hermano_nuevo("00010", "Ana", "Ruiz");
    a.segundo_apellido = Some("Lara".to_string());
    a.dni = Some("11111111H".to_string());
    let mut b = hermano_nuevo("00020", "Blas", "Soto");
    b.dni = Some("22222222J".to_string());
    b.observaciones = Some("Lara".to_string());
    create_hermano(&mut db, &a).unwrap();
    create_hermano(&mut db, &b).unwrap();
    assert_eq!(numeros(&search_hermanos(&db, "Lara")), ["00010"]);
    assert_eq!(numeros(&search_hermanos(&db, "las")), ["00020"]);
    assert_eq!(numeros(&search_hermanos(&db, "Sot")), ["00020"]);
    assert_eq!(numeros(&search_hermanos(&db, "0001")), ["00010"]);
    assert_eq!(numeros(&search_hermanos(&db, "2222J")), ["00020"]);
    assert_eq!(numeros(&search_hermanos(&db, "")), ["00010", "00020"]);
    assert!(search_hermanos(&db, "ana").is_empty());
    assert!(search_hermanos(&db, "Zeta").is_empty());
}

#[test]
fn listado_por_familia() {
    let mut db = Database::new();
    let mut a = hermano_nuevo("00002", "Ana", "Ruiz");
    a.familia_id = Some(7);
    let mut b = hermano_nuevo("00001", "Blas", "Ruiz");
    b.familia_id = Some(7);
    let mut c = hermano_nuevo("00003", "Carla", "Vega");
    c.familia_id = Some(8);
    create_hermano(&mut db, &a).unwrap();
    create_hermano(&mut db, &b).unwrap();
    create_hermano(&mut db, &c).unwrap();
    create_hermano(&mut db, &hermano_nuevo("00004", "Dora", "Gil")).unwrap();
    assert_eq!(numeros(&get_hermanos_by_familia(&db, 7)), ["00001", "00002"]);
    assert_eq!(numeros(&get_hermanos_by_familia(&db, 8)), ["00003"]);
    assert!(get_hermanos_by_familia(&db, 9).is_empty());
}

#[test]
fn el_cambio_reemplaza_todo_menos_id_y_alta() {
    let mut db = Database::new();
    db.fijar_reloj("2025-01-01 08:00:00");
    let id = create_hermano(&mut db, &hermano_nuevo("00001", "Ana", "Ruiz")).unwrap();
    db.fijar_reloj("2025-02-02 09:00:00");
    let mut cambio = hermano_nuevo("00009", "Anabel", "Ruiz");
    cambio.id = Some(55);
    cambio.dni = Some(" ".to_string());
    cambio.localidad = Some("Sevilla".to_string());
    cambio.activo = false;
    assert_eq!(update_hermano(&mut db, id, &cambio), Ok(()));
    let leido = get_hermano_by_id(&db, id).unwrap();
    assert_eq!(leido.id, Some(id));
    assert_eq!(leido.numero_hermano, "00009");
    assert_eq!(leido.nombre, "Anabel");
    assert_eq!(leido.dni, None);
    assert_eq!(leido.localidad, Some("Sevilla".to_string()));
    assert!(!leido.activo);
    assert_eq!(leido.created_at, Some("2025-01-01 08:00:00".to_string()));
    assert_eq!(leido.updated_at, Some("2025-02-02 09:00:00".to_string()));
    assert_eq!(get_hermano_by_id(&db, 55), None);
}

#[test]
fn el_cambio_no_puede_repetir_numero() {
    let mut db = Database::new();
    let a = create_hermano(&mut db, &hermano_nuevo("00001", "Ana", "Ruiz")).unwrap();
    create_hermano(&mut db, &hermano_nuevo("00002", "Blas", "Soto")).unwrap();
    let r = update_hermano(&mut db, a, &hermano_nuevo("00002", "Ana", "Ruiz"));
    assert_eq!(r, Err(DbError::Almacenamiento(Restriccion::NumeroHermanoRepetido)));
    assert_eq!(get_hermano_by_id(&db, a).unwrap().numero_hermano, "00001");
    assert_eq!(update_hermano(&mut db, a, &hermano_nuevo("00001", "Ana", "Ruiz")), Ok(()));
    assert_eq!(update_hermano(&mut db, 99, &hermano_nuevo("00002", "Nadie", "Nada")), Ok(()));
    assert_eq!(get_all_hermanos(&db).len(), 2);
}

#[test]
fn la_baja_desactiva_y_sella() {
    let mut db = Database::new();
    db.fijar_reloj("t0");
    let a = create_hermano(&mut db, &hermano_nuevo("00001", "Ana", "Ruiz")).unwrap();
    let b = create_hermano(&mut db, &hermano_nuevo("00002", "Blas", "Soto")).unwrap();
    db.fijar_reloj("t1");
    set_hermano_inactive(&mut db, a);
    let leido = get_hermano_by_id(&db, a).unwrap();
    assert!(!leido.activo);
    assert_eq!(leido.created_at, Some("t0".to_string()));
    assert_eq!(leido.updated_at, Some("t1".to_string()));
    let otro = get_hermano_by_id(&db, b).unwrap();
    assert!(otro.activo);
    assert_eq!(otro.updated_at, Some("t0".to_string()));
    set_hermano_inactive(&mut db, 99);
    assert_eq!(get_all_hermanos(&db).len(), 2);
}

#[test]
fn el_traslado_cambia_la_familia() {
    let mut db = Database::new();
    let a = create_hermano(&mut db, &hermano_nuevo("00001", "Ana", "Ruiz")).unwrap();
    db.fijar_reloj("t1");
    update_hermano_familia(&mut db, a, Some(4));
    assert_eq!(get_hermano_by_id(&db, a).unwrap().familia_id, Some(4));
    assert_eq!(get_hermano_by_id(&db, a).unwrap().updated_at, Some("t1".to_string()));
    update_hermano_familia(&mut db, a, None);
    assert_eq!(get_hermano_by_id(&db, a).unwrap().familia_id, None);
}

#[test]
fn el_borrado_se_lleva_las_cuotas() {
    let mut db = Database::new();
    let a = create_hermano(&mut db, &hermano_nuevo("00001", "Ana", "Ruiz")).unwrap();
    let b = create_hermano(&mut db, &hermano_nuevo("00002", "Blas", "Soto")).unwrap();
    create_cuota(&mut db, &cuota_de(a, 2025, 1)).unwrap();
    create_cuota(&mut db, &cuota_de(b, 2025, 1)).unwrap();
    create_cuota(&mut db, &cuota_de(a, 2025, 2)).unwrap();
    delete_hermano(&mut db, a);
    assert_eq!(get_hermano_by_id(&db, a), None);
    assert_eq!(numeros(&get_all_hermanos(&db)), ["00002"]);
    let quedan = get_all_cuotas(&db);
    assert_eq!(quedan.len(), 1);
    assert_eq!(quedan[0].hermano_id, b);
    delete_hermano(&mut db, 77);
    assert_eq!(get_all_hermanos(&db).len(), 1);
}

#[test]
fn los_identificadores_no_se_reutilizan() {
    let mut db = Database::new();
    let a = create_hermano(&mut db, &hermano_nuevo("00001", "Ana", "Ruiz")).unwrap();
    delete_hermano(&mut db, a);
    let b = create_hermano(&mut db, &hermano_nuevo("", "Blas", "Soto")).unwrap();
    assert_eq!(b, a + 1);
    assert_eq!(get_hermano_by_id(&db, b).unwrap().numero_hermano, "00001");
}
