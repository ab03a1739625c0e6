use hermanar::base::Database;
use hermanar::comandos::{concluir_alta, create_hermano_con_familia_cmd, get_hermano_cmd};
use hermanar::error::{DbError, ErrorAlta, Restriccion};
use hermanar::familias::{create_familia, get_all_familias, get_familia_by_id};
use hermanar::hermanos::{get_all_hermanos, get_hermano_by_id};
use hermanar::modelo::{Familia, Hermano, HermanoConFamiliaData};

fn aspirante(numero: &str, familia_id: Option<i32>) -> Hermano {
    Hermano {
        id: None,
        numero_hermano: numero.to_string(),
        nombre: "Ana".to_string(),
        primer_apellido: "Ruiz".to_string(),
        segundo_apellido: None,
        dni: None,
        fecha_nacimiento: None,
        localidad_nacimiento: None,
        provincia_nacimiento: None,
        fecha_alta: "2024-01-15".to_string(),
        familia_id,
        telefono: None,
        email: None,
        direccion: None,
        localidad: None,
        provincia: None,
        codigo_postal: None,
        parroquia_bautismo: None,
        localidad_bautismo: None,
        provincia_bautismo: None,
        autorizacion_menores: false,
        nombre_representante_legal: None,
        dni_representante_legal: None,
        hermano_aval_1: None,
        hermano_aval_2: None,
        activo: true,
        observaciones: None,
        created_at: None,
        updated_at: None,
    }
}

fn casa(nombre: &str) -> Familia {
    Familia {
        id: None,
        nombre_familia: nombre.to_string(),
        hermano_direccion_id: None,
        created_at: None,
        updated_at: None,
    }
}

#[test]
fn alta_con_familia_nueva() {
    let mut db = Database::new();
    create_familia(&mut db, &casa("Soto")).unwrap();
    db.fijar_reloj("t0");
    let datos = HermanoConFamiliaData {
        hermano: aspirante("", Some(1)),
        nueva_familia_nombre: Some("Ruiz Lara".to_string()),
    };
    let id = create_hermano_con_familia_cmd(&mut db, datos).unwrap();
    assert_eq!(id, 1);
    let h = get_hermano_by_id(&db, id).unwrap();
    assert_eq!(h.familia_id, Some(2));
    let f = get_familia_by_id(&db, 2).unwrap();
    assert_eq!(f.nombre_familia, "Ruiz Lara");
    assert_eq!(f.hermano_direccion_id, Some(id));
    assert_eq!(f.created_at, Some("t0".to_string()));
    assert_eq!(get_all_familias(&db).len(), 2);
}

#[test]
fn alta_sin_familia_nueva_respeta_la_escrita() {
    let mut db = Database::new();
    let con = HermanoConFamiliaData { hermano: aspirante("", Some(9)), nueva_familia_nombre: None };
    let sin = HermanoConFamiliaData { hermano: aspirante("", None), nueva_familia_nombre: None };
    let a = create_hermano_con_familia_cmd(&mut db, con).unwrap();
    let b = create_hermano_con_familia_cmd(&mut db, sin).unwrap();
    assert_eq!(get_hermano_by_id(&db, a).unwrap().familia_id, Some(9));
    assert_eq!(get_hermano_by_id(&db, b).unwrap().familia_id, None);
    assert!(get_all_familias(&db).is_empty());
}

#[test]
fn si_la_familia_no_se_crea_no_se_guarda_nada() {
    let mut db = Database::new();
    create_familia(&mut db, &casa("Ruiz")).unwrap();
    let datos = HermanoConFamiliaData {
        hermano: aspirante("", None),
        nueva_familia_nombre: Some("Ruiz".to_string()),
    };
    assert_eq!(
        create_hermano_con_familia_cmd(&mut db, datos),
        Err(ErrorAlta::Familia(DbError::Almacenamiento(Restriccion::NombreFamiliaRepetido)))
    );
    assert!(get_all_hermanos(&db).is_empty());
    assert_eq!(get_all_familias(&db).len(), 1);
}

#[test]
fn si_el_hermano_no_se_guarda_la_familia_queda_sin_direccion() {
    let mut db = Database::new();
    let datos = HermanoConFamiliaData {
        hermano: aspirante("42", None),
        nueva_familia_nombre: Some("Ruiz".to_string()),
    };
    assert_eq!(
        create_hermano_con_familia_cmd(&mut db, datos),
        Err(ErrorAlta::Hermano(DbError::NumeroHermanoInvalido))
    );
    assert!(get_all_hermanos(&db).is_empty());
    let f = get_familia_by_id(&db, 1).unwrap();
    assert_eq!(f.nombre_familia, "Ruiz");
    assert_eq!(f.hermano_direccion_id, None);
}

#[test]
fn el_fallo_del_enlace_no_impide_el_alta() {
    assert_eq!(concluir_alta(7, Ok(())), Ok(7));
    assert_eq!(
        concluir_alta(7, Err(DbError::Almacenamiento(Restriccion::NombreFamiliaRepetido))),
        Ok(7)
    );
}

#[test]
fn la_consulta_estricta_exige_que_el_hermano_exista() {
    let mut db = Database::new();
    let datos = HermanoConFamiliaData { hermano: aspirante("00005", None), nueva_familia_nombre: None };
    let id = create_hermano_con_familia_cmd(&mut db, datos).unwrap();
    assert_eq!(get_hermano_cmd(&db, id).unwrap().numero_hermano, "00005");
    assert_eq!(get_hermano_cmd(&db, id + 1), Err(DbError::HermanoNoEncontrado));
    assert_eq!(
        get_hermano_cmd(&db, id + 1).unwrap_err().clase(),
        hermanar::error::ClaseError::NoEncontrado
    );
}
