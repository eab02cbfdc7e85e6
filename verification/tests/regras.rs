use gerador::arco::{classificar_glifos, compor_texto_arco, Bloco};
use gerador::cargos::{cargo_genero, cargo_numerado, digitos_por_cargo, lacunas_entre_digitos, CargoNumerado};
use gerador::fonte::{decidir_avanco, LarguraAvanco};
use gerador::lote::{contem_cargo, planejar, sem_numero, Candidatura, NumeroUrna};
use gerador::recorte::corte_centralizado;
use gerador::texto::mesmo_texto;

fn candidatura(slug: &str, nome: &str, cargo: &str, genero: &str, cargo_arco: Option<&str>, numero: Option<&str>) -> Candidatura {
    Candidatura {
        slug: slug.to_string(),
        nome_arco: nome.to_string(),
        cargo: cargo.to_string(),
        genero: genero.to_string(),
        cargo_arco: cargo_arco.map(|s| s.to_string()),
        numero: numero.map(|s| s.to_string()),
    }
}

fn padrao() -> Vec<String> {
    vec!["presidente".to_string(), "governador".to_string()]
}

#[test]
fn mesmo_texto_compara_caracteres() {
    assert!(mesmo_texto("senador", "senador"));
    assert!(!mesmo_texto("senador", "senadora"));
    assert!(!mesmo_texto("senador", "Senador"));
    assert!(mesmo_texto("", ""));
    assert!(mesmo_texto("ção", "ção"));
}

#[test]
fn cargo_genero_flexiona() {
    assert_eq!(cargo_genero("presidente", "m"), "Presidente");
    assert_eq!(cargo_genero("presidente", "f"), "Presidenta");
    assert_eq!(cargo_genero("governador", "m"), "Governador");
    assert_eq!(cargo_genero("governador", "f"), "Governadora");
    assert_eq!(cargo_genero("senador", "m"), "Senador");
    assert_eq!(cargo_genero("senador", ""), "Senadora");
    assert_eq!(cargo_genero("deputado-federal", "m"), "Deputado");
    assert_eq!(cargo_genero("deputado-estadual", "m"), "Deputado");
    assert_eq!(cargo_genero("deputado-federal", "f"), "Deputada");
    assert_eq!(cargo_genero("deputado-estadual", "x"), "Deputada");
    assert_eq!(cargo_genero("vereador", "m"), "");
    assert_eq!(cargo_genero("", "f"), "");
}

#[test]
fn digitos_seguem_a_regra_do_tse() {
    assert_eq!(digitos_por_cargo("senador"), Some(3));
    assert_eq!(digitos_por_cargo("deputado-federal"), Some(4));
    assert_eq!(digitos_por_cargo("deputado-estadual"), Some(5));
    assert_eq!(digitos_por_cargo("presidente"), None);
    assert_eq!(digitos_por_cargo("governador"), None);
    assert_eq!(digitos_por_cargo("Senador"), None);
    assert_eq!(cargo_numerado("deputado-federal"), Some(CargoNumerado::DeputadoFederal));
    assert_eq!(CargoNumerado::DeputadoEstadual.digitos(), 5);
}

#[test]
fn todo_cargo_numerado_tem_titulo() {
    for cargo in ["senador", "deputado-federal", "deputado-estadual"] {
        for genero in ["m", "f"] {
            assert!(digitos_por_cargo(cargo).is_some());
            assert!(!cargo_genero(cargo, genero).is_empty());
        }
    }
}

#[test]
fn rastrejo_so_entre_digitos() {
    assert_eq!(lacunas_entre_digitos("8013"), 3);
    assert_eq!(lacunas_entre_digitos("801"), 2);
    assert_eq!(lacunas_entre_digitos("8"), 0);
    assert_eq!(lacunas_entre_digitos(""), 0);
}

#[test]
fn arco_com_nome_primeiro() {
    let a = compor_texto_arco("Samara Martins", "Presidenta", true);
    assert_eq!(a.texto, "SAMARA MARTINS   PRESIDENTA");
    assert!(a.primeiro_bloco_e_nome);
    assert_eq!(a.tamanho_primeiro_bloco, 14);
}

#[test]
fn arco_com_cargo_primeiro() {
    let a = compor_texto_arco("Ana", "Senadora", false);
    assert_eq!(a.texto, "SENADORA   ANA");
    assert!(!a.primeiro_bloco_e_nome);
    assert_eq!(a.tamanho_primeiro_bloco, 8);
}

#[test]
fn arco_sem_cargo_so_tem_o_nome() {
    let a = compor_texto_arco("Ana Paula", "", false);
    assert_eq!(a.texto, "ANA PAULA");
    assert!(a.primeiro_bloco_e_nome);
    assert_eq!(a.tamanho_primeiro_bloco, 9);
}

#[test]
fn cores_nao_mudam_com_a_ordem() {
    let (n, e, c) = (Bloco::Nome, Bloco::Espaco, Bloco::Cargo);
    let a = compor_texto_arco("Lu", "Sen", true);
    assert_eq!(a.blocos(), vec![n, n, e, e, e, c, c, c]);
    let b = compor_texto_arco("Lu", "Sen", false);
    assert_eq!(b.blocos(), vec![c, c, c, e, e, e, n, n]);
}

#[test]
fn espaco_dentro_do_nome_nao_se_desenha() {
    let (n, e, c) = (Bloco::Nome, Bloco::Espaco, Bloco::Cargo);
    assert_eq!(classificar_glifos("A B  C", 3, true), vec![n, e, n, e, e, c]);
    assert_eq!(classificar_glifos("A B  C", 3, false), vec![c, e, c, e, e, n]);
}

#[test]
fn maiusculas_que_crescem_mantem_a_cor() {
    // "ß" vira "SS": o bloco do nome e contado no texto ja em maiusculas, e
    // os dois S saem na cor do nome.
    let a = compor_texto_arco("ß", "X", true);
    assert_eq!(a.texto, "SS   X");
    assert_eq!(a.tamanho_primeiro_bloco, 2);
    assert_eq!(a.blocos(), vec![Bloco::Nome, Bloco::Nome, Bloco::Espaco, Bloco::Espaco, Bloco::Espaco, Bloco::Cargo]);
    let b = compor_texto_arco("ß", "X", false);
    assert_eq!(b.texto, "X   SS");
    assert_eq!(b.blocos(), vec![Bloco::Cargo, Bloco::Espaco, Bloco::Espaco, Bloco::Espaco, Bloco::Nome, Bloco::Nome]);
}

#[test]
fn sem_cargo_a_ordem_nao_muda_nada() {
    let a = compor_texto_arco("ßa", "", true);
    let b = compor_texto_arco("ßa", "", false);
    assert_eq!(a.texto, "SSA");
    assert_eq!(a.texto, b.texto);
    assert_eq!(a.tamanho_primeiro_bloco, 3);
    assert_eq!(b.tamanho_primeiro_bloco, 3);
    assert_eq!(a.blocos(), vec![Bloco::Nome, Bloco::Nome, Bloco::Nome]);
    assert_eq!(b.blocos(), a.blocos());
}

#[test]
fn plano_da_presidenta() {
    let c = candidatura("samara-martins", "Samara Martins", "presidente", "f", None, None);
    let p = planejar(&c, &padrao());
    assert_eq!(p.arco.texto, "SAMARA MARTINS   PRESIDENTA");
    assert!(p.arco.primeiro_bloco_e_nome);
    assert!(matches!(p.numero, NumeroUrna::DoPartido));
    assert_eq!(p.arquivo, "samara-martins.png");
}

#[test]
fn plano_do_governador_usa_cargo_dado() {
    let c = candidatura("fulano", "Fulano", "governador", "m", Some("Governador SP"), None);
    let p = planejar(&c, &padrao());
    assert_eq!(p.arco.texto, "GOVERNADOR SP   FULANO");
    assert!(!p.arco.primeiro_bloco_e_nome);
    assert_eq!(p.arco.tamanho_primeiro_bloco, 13);
    assert!(matches!(p.numero, NumeroUrna::DoPartido));
}

#[test]
fn plano_do_deputado_com_numero() {
    let c = candidatura("beltrana", "Beltrana", "deputado-estadual", "f", None, Some("80123"));
    let p = planejar(&c, &padrao());
    assert_eq!(p.arco.texto, "DEPUTADA   BELTRANA");
    match p.numero {
        NumeroUrna::Proprio { cargo, digitos } => {
            assert_eq!(cargo, CargoNumerado::DeputadoEstadual);
            assert_eq!(digitos, Some("80123".to_string()));
        }
        _ => panic!("esperava numero proprio"),
    }
    assert_eq!(p.arquivo, "beltrana.png");
}

#[test]
fn plano_do_senador_sem_numero() {
    let c = candidatura("ciclano", "Ciclano", "senador", "m", None, None);
    let p = planejar(&c, &padrao());
    match p.numero {
        NumeroUrna::Proprio { cargo, digitos } => {
            assert_eq!(cargo, CargoNumerado::Senador);
            assert_eq!(digitos, None);
        }
        _ => panic!("esperava numero proprio"),
    }
}

#[test]
fn plano_de_cargo_desconhecido() {
    let c = candidatura("x", "X", "vereador", "m", None, Some("123"));
    let p = planejar(&c, &padrao());
    assert!(matches!(p.numero, NumeroUrna::Nenhum));
    assert_eq!(p.arco.texto, "X");
}

#[test]
fn lista_de_numero_padrao_manda() {
    let c = candidatura("s", "S", "senador", "f", None, Some("801"));
    let lista = vec!["senador".to_string()];
    assert!(matches!(planejar(&c, &lista).numero, NumeroUrna::DoPartido));
    assert!(contem_cargo(&lista, "senador"));
    assert!(!contem_cargo(&lista, "presidente"));
    assert!(!contem_cargo(&Vec::new(), "senador"));
}

#[test]
fn sem_numero_lista_quem_falta() {
    let cs = vec![
        candidatura("a", "A", "presidente", "f", None, None),
        candidatura("b", "B", "senador", "m", None, None),
        candidatura("c", "C", "deputado-federal", "f", None, Some("8080")),
        candidatura("d", "D", "deputado-estadual", "m", None, None),
        candidatura("e", "E", "vereador", "m", None, None),
    ];
    assert_eq!(sem_numero(&cs), vec!["b".to_string(), "d".to_string()]);
    assert_eq!(sem_numero(&Vec::new()), Vec::<String>::new());
}

#[test]
fn avanco_escolhido() {
    assert_eq!(decidir_avanco(Some(7), Some(600), 1000), LarguraAvanco::Medida(600));
    assert_eq!(decidir_avanco(Some(7), None, 1000), LarguraAvanco::Medida(0));
    assert_eq!(decidir_avanco(None, Some(600), 2048), LarguraAvanco::Substituta { unidades_por_em: 2048 });
    assert_eq!(decidir_avanco(None, None, 16), LarguraAvanco::Substituta { unidades_por_em: 16 });
}

#[test]
fn corte_centraliza() {
    assert_eq!(corte_centralizado(1200, 800), 200);
    assert_eq!(corte_centralizado(801, 800), 0);
    assert_eq!(corte_centralizado(803, 800), 1);
    assert_eq!(corte_centralizado(800, 800), 0);
    assert_eq!(corte_centralizado(500, 800), 0);
}
