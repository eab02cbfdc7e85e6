use vstd::prelude::*;
use vstd::string::*;

use crate::arco::{compor_texto_arco, texto_do_arco, tamanho_do_primeiro_bloco, primeiro_e_nome, TextoArco};
use crate::cargos::{cargo_genero, cargo_numerado, titulo_do_cargo, cargo_numerado_de, digitos_do_cargo, digitos_por_cargo, CargoNumerado, lema_cargos_distintos, lei_titulos_flexionados};
use crate::arco::em_maiusculas;
use crate::texto::mesmo_texto;

verus! {

/// Uma candidatura, como a lista do site a descreve.
pub struct Candidatura {
    pub slug: String,
    pub nome_arco: String,
    pub cargo: String,
    pub genero: String,
    pub cargo_arco: Option<String>,
    pub numero: Option<String>,
}

/// O que se desenha no lugar do numero de urna.
pub enum NumeroUrna {
    /// O numero do partido, comum aos cargos listados na configuracao.
    DoPartido,
    /// O numero proprio do cargo: os digitos, quando a candidatura os tem,
    /// e por cima o selo do cargo.
    Proprio { cargo: CargoNumerado, digitos: Option<String> },
    /// Nada.
    Nenhum,
}

/// Tudo o que se decide para gerar a imagem de uma candidatura.
pub struct Plano {
    pub arco: TextoArco,
    pub numero: NumeroUrna,
    pub arquivo: String,
}

pub open spec fn opcao_texto(o: Option<String>) -> Option<Seq<char>> {
    match o {
        Some(s) => Some(s@),
        None => None,
    }
}

/// `lista` traz o texto `cargo`.
pub open spec fn contem(lista: Seq<String>, cargo: Seq<char>) -> bool {
    exists|i: int| 0 <= i < lista.len() && #[trigger] lista[i]@ == cargo
}

/// O cargo escrito no arco: o dado na candidatura, ou o titulo do cargo
/// flexionado pelo genero.
pub open spec fn cargo_no_arco(c: Candidatura) -> Seq<char> {
    match c.cargo_arco {
        Some(t) => t@,
        None => titulo_do_cargo(c.cargo@, c.genero@),
    }
}

/// So a presidencia escreve o nome antes do cargo.
pub open spec fn nome_vem_primeiro(c: Candidatura) -> bool {
    c.cargo@ == "presidente"@
}

/// Diz se `cargo` esta em `lista`.
pub fn contem_cargo(lista: &Vec<String>, cargo: &str) -> (r: bool)
    ensures
        r == contem(lista@, cargo@),
{
    let n = lista.len();
    let mut i: usize = 0;
    while i < n
        invariant
            n == lista@.len(),
            i <= n,
            forall|j: int| 0 <= j < i ==> #[trigger] lista@[j]@ != cargo@,
        decreases n - i,
    {
        if mesmo_texto(lista[i].as_str(), cargo) {
            return true;
        }
        i += 1;
    }
    false
}

/// Decide o que desenhar para uma candidatura: o texto do arco, o numero de
/// urna e o arquivo de saida (`<slug>.png`).
pub fn planejar(c: &Candidatura, cargos_com_numero_padrao: &Vec<String>) -> (r: Plano)
    ensures
        r.arco.texto@ == texto_do_arco(c.nome_arco@, cargo_no_arco(*c), nome_vem_primeiro(*c)),
        r.arco.primeiro_bloco_e_nome == primeiro_e_nome(cargo_no_arco(*c), nome_vem_primeiro(*c)),
        r.arco.tamanho_primeiro_bloco == tamanho_do_primeiro_bloco(
            c.nome_arco@,
            cargo_no_arco(*c),
            nome_vem_primeiro(*c),
        ),
        (r.numero is DoPartido) <==> contem(cargos_com_numero_padrao@, c.cargo@),
        (r.numero is Nenhum) <==> (!contem(cargos_com_numero_padrao@, c.cargo@)
            && cargo_numerado_de(c.cargo@) is None),
        r.numero matches NumeroUrna::Proprio { cargo, digitos } ==> {
            &&& Some(cargo) == cargo_numerado_de(c.cargo@)
            &&& opcao_texto(digitos) == opcao_texto(c.numero)
        },
        r.arquivo@ == c.slug@ + ".png"@,
{
    let cargo_arco = match &c.cargo_arco {
        Some(t) => t.clone(),
        None => String::from_str(cargo_genero(c.cargo.as_str(), c.genero.as_str())),
    };
    let nome_primeiro = mesmo_texto(c.cargo.as_str(), "presidente");
    let arco = compor_texto_arco(c.nome_arco.as_str(), cargo_arco.as_str(), nome_primeiro);
    let numero = if contem_cargo(cargos_com_numero_padrao, c.cargo.as_str()) {
        NumeroUrna::DoPartido
    } else {
        match cargo_numerado(c.cargo.as_str()) {
            Some(cargo) => {
                let digitos = match &c.numero {
                    Some(d) => Some(d.clone()),
                    None => None,
                };
                NumeroUrna::Proprio { cargo, digitos }
            },
            None => NumeroUrna::Nenhum,
        }
    };
    let arquivo = String::from_str(c.slug.as_str()).concat(".png");
    Plano { arco, numero, arquivo }
}

/// Slugs, na ordem da lista, das candidaturas cujo cargo pede numero
/// proprio mas que nao tem numero.
pub open spec fn slugs_sem_numero(cs: Seq<Candidatura>) -> Seq<Seq<char>>
    decreases cs.len(),
{
    if cs.len() == 0 {
        Seq::empty()
    } else {
        let anteriores = slugs_sem_numero(cs.drop_last());
        let c = cs.last();
        if digitos_do_cargo(c.cargo@) is Some && c.numero is None {
            anteriores.push(c.slug@)
        } else {
            anteriores
        }
    }
}

/// Lista as candidaturas que deviam ter numero de urna e nao tem.
pub fn sem_numero(cs: &Vec<Candidatura>) -> (r: Vec<String>)
    ensures
        r@.map_values(|s: String| s@) == slugs_sem_numero(cs@),
{
    let n = cs.len();
    let mut r: Vec<String> = Vec::new();
    let mut i: usize = 0;
    while i < n
        invariant
            n == cs@.len(),
            i <= n,
            r@.map_values(|s: String| s@) == slugs_sem_numero(cs@.take(i as int)),
        decreases n - i,
    {
        let c = &cs[i];
        assert(cs@.take(i as int + 1).drop_last() =~= cs@.take(i as int));
        let ghost antes = r@;
        if digitos_por_cargo(c.cargo.as_str()).is_some() && c.numero.is_none() {
            r.push(c.slug.clone());
            assert(r@.map_values(|s: String| s@) =~= antes.map_values(|s: String| s@).push(c.slug@));
        }
        i += 1;
    }
    assert(cs@.take(n as int) =~= cs@);
    r
}

/// Uma candidatura esta na lista de `slugs_sem_numero` exatamente quando
/// algum elemento da lista tem aquele slug, cargo com numero proprio e
/// nenhum numero.
proof fn lema_slugs_sem_numero(cs: Seq<Candidatura>, s: Seq<char>)
    ensures
        slugs_sem_numero(cs).contains(s) <==> exists|k: int|
            0 <= k < cs.len() && #[trigger] cs[k].slug@ == s && digitos_do_cargo(cs[k].cargo@) is Some
                && cs[k].numero is None,
    decreases cs.len(),
{
    if cs.len() > 0 {
        let ant = cs.drop_last();
        lema_slugs_sem_numero(ant, s);
        if slugs_sem_numero(cs).contains(s) {
            let c = cs.last();
            if !slugs_sem_numero(ant).contains(s) {
                assert(c.slug@ == s);
                assert(cs[cs.len() - 1].slug@ == s);
            } else {
                let k = choose|k: int|
                    0 <= k < ant.len() && #[trigger] ant[k].slug@ == s && digitos_do_cargo(ant[k].cargo@) is Some
                        && ant[k].numero is None;
                assert(cs[k] == ant[k]);
            }
        }
        if exists|k: int|
            0 <= k < cs.len() && #[trigger] cs[k].slug@ == s && digitos_do_cargo(cs[k].cargo@) is Some
                && cs[k].numero is None {
            let k = choose|k: int|
                0 <= k < cs.len() && #[trigger] cs[k].slug@ == s && digitos_do_cargo(cs[k].cargo@) is Some
                    && cs[k].numero is None;
            if k < cs.len() - 1 {
                assert(ant[k] == cs[k]);
                let sa = slugs_sem_numero(ant);
                let j = choose|j: int| 0 <= j < sa.len() && sa[j] == s;
                if digitos_do_cargo(cs.last().cargo@) is Some && cs.last().numero is None {
                    assert(sa.push(cs.last().slug@)[j] == s);
                }
            } else {
                let sa = slugs_sem_numero(ant);
                assert(sa.push(s)[sa.len() as int] == s);
            }
        }
    }
}

/// Toda candidatura cujo cargo pede numero proprio e que nao tem numero e
/// avisada na lista das sem numero.
pub proof fn lei_sem_numero_e_avisada(cs: Seq<Candidatura>, k: int)
    requires
        0 <= k < cs.len(),
        cargo_numerado_de(cs[k].cargo@) is Some,
        cs[k].numero is None,
    ensures
        slugs_sem_numero(cs).contains(cs[k].slug@),
{
    lema_slugs_sem_numero(cs, cs[k].slug@);
}

/// Na lista das sem numero so entram candidaturas de cargo com numero
/// proprio e sem numero.
pub proof fn lei_avisadas_sao_sem_numero(cs: Seq<Candidatura>, s: Seq<char>)
    requires
        slugs_sem_numero(cs).contains(s),
    ensures
        exists|k: int|
            0 <= k < cs.len() && #[trigger] cs[k].slug@ == s && digitos_do_cargo(cs[k].cargo@) is Some
                && cs[k].numero is None,
{
    lema_slugs_sem_numero(cs, s);
}

/// So a presidencia abre o arco com o nome, seja qual for o genero; os
/// demais cargos abrem com o titulo, a menos que nao haja titulo nenhum
/// (entao o arco traz so o nome).
pub proof fn lei_so_a_presidencia_abre_com_o_nome(c: Candidatura)
    ensures
        primeiro_e_nome(cargo_no_arco(c), nome_vem_primeiro(c)) <==> (c.cargo@ == "presidente"@
            || cargo_no_arco(c).len() == 0),
{
}

/// Sem cargo escrito na candidatura, o arco traz o titulo do cargo
/// flexionado pelo genero da propria candidatura: "SENADOR   NOME" para
/// um senador de genero `"m"`, "SENADORA   NOME" para os demais generos, e
/// assim por diante; na presidencia, o nome vem antes do titulo; cargo sem
/// titulo deixa no arco so o nome.
pub proof fn lei_texto_do_arco_da_candidatura(c: Candidatura)
    requires
        c.cargo_arco is None,
    ensures
        cargo_no_arco(c) == titulo_do_cargo(c.cargo@, c.genero@),
        ({
            let t = texto_do_arco(c.nome_arco@, cargo_no_arco(c), nome_vem_primeiro(c));
            let nome = em_maiusculas(c.nome_arco@);
            let m = c.genero@ == "m"@;
            let sep = seq![' ', ' ', ' '];
            &&& c.cargo@ == "presidente"@ ==> t == nome + sep + em_maiusculas(
                if m { "Presidente"@ } else { "Presidenta"@ },
            )
            &&& c.cargo@ == "governador"@ ==> t == em_maiusculas(
                if m { "Governador"@ } else { "Governadora"@ },
            ) + sep + nome
            &&& c.cargo@ == "senador"@ ==> t == em_maiusculas(if m { "Senador"@ } else { "Senadora"@ })
                + sep + nome
            &&& (c.cargo@ == "deputado-federal"@ || c.cargo@ == "deputado-estadual"@) ==> t
                == em_maiusculas(if m { "Deputado"@ } else { "Deputada"@ }) + sep + nome
            &&& !(c.cargo@ == "presidente"@ || c.cargo@ == "governador"@ || c.cargo@ == "senador"@
                || c.cargo@ == "deputado-federal"@ || c.cargo@ == "deputado-estadual"@) ==> t == nome
        }),
{
    lema_cargos_distintos();
    lei_titulos_flexionados(c.cargo@, c.genero@);
    assert(crate::arco::separador() =~= seq![' ', ' ', ' ']);
}

} // verus!
