use vstd::prelude::*;

verus! {

/// Unidades por em da fonte em `dados` (lida como a face 0), ou `None`
/// quando `ttf_parser::Face::parse` recusa os dados.
pub uninterp spec fn unidades_por_em_de(dados: Seq<u8>) -> Option<u16>;

/// Glifo que a fonte em `dados` da ao caractere `ch`, ou `None` quando a
/// fonte nao tem um (ou quando os dados nao se leem como fonte).
pub uninterp spec fn indice_do_glifo(dados: Seq<u8>, ch: char) -> Option<u16>;

/// Avanco horizontal do glifo na fonte em `dados`, quando ela o traz.
pub uninterp spec fn avanco_do_glifo(dados: Seq<u8>, glifo: u16) -> Option<u16>;

/// Caixa justa do contorno do glifo, `(x_min, y_min, x_max, y_max)`, quando
/// o glifo tem contorno.
pub uninterp spec fn caixa_do_glifo(dados: Seq<u8>, glifo: u16) -> Option<(i16, i16, i16, i16)>;

/// Le `dados` com `Face::parse` (face 0) e chama `Face::units_per_em`.
/// Devolve `None` quando a leitura falha; a leitura so aceita fontes cujas
/// unidades por em estao entre 16 e 16384, como a documentacao garante.
#[verifier::external_body]
fn unidades_por_em(dados: &[u8]) -> (r: Option<u16>)
    ensures
        r == unidades_por_em_de(dados@),
        r matches Some(u) ==> 16 <= u <= 16384,
{
    ttf_parser::Face::parse(dados, 0).ok().map(|f| f.units_per_em())
}

/// Le `dados` com `Face::parse` (face 0) e chama `Face::glyph_index`; o
/// resultado e o nome acima, sem mais nada sobre as tabelas da fonte.
#[verifier::external_body]
fn glifo(dados: &[u8], ch: char) -> (r: Option<u16>)
    ensures
        r == indice_do_glifo(dados@, ch),
{
    ttf_parser::Face::parse(dados, 0).ok().and_then(|f| f.glyph_index(ch)).map(|g| g.0)
}

/// Le `dados` com `Face::parse` (face 0) e chama `Face::glyph_hor_advance`.
#[verifier::external_body]
fn avanco_horizontal(dados: &[u8], glifo: u16) -> (r: Option<u16>)
    ensures
        r == avanco_do_glifo(dados@, glifo),
{
    ttf_parser::Face::parse(dados, 0).ok().and_then(|f| f.glyph_hor_advance(ttf_parser::GlyphId(glifo)))
}

/// Le `dados` com `Face::parse` (face 0) e chama `Face::glyph_bounding_box`,
/// a caixa que `Face::outline_glyph` devolve ao tracar o glifo.
#[verifier::external_body]
fn caixa(dados: &[u8], glifo: u16) -> (r: Option<(i16, i16, i16, i16)>)
    ensures
        r == caixa_do_glifo(dados@, glifo),
{
    ttf_parser::Face::parse(dados, 0)
        .ok()
        .and_then(|f| f.glyph_bounding_box(ttf_parser::GlyphId(glifo)))
        .map(|b| (b.x_min, b.y_min, b.x_max, b.y_max))
}

/// Largura de avanco de um caractere, em unidades da fonte.
#[derive(PartialEq, Eq, Structural, Clone, Copy, Debug)]
pub enum LarguraAvanco {
    /// O avanco do glifo, como a fonte o da (0 se ela nao traz avanco).
    Medida(u16),
    /// A fonte nao tem glifo para o caractere: usa-se 0,3 do em.
    Substituta { unidades_por_em: u16 },
}

pub open spec fn avanco_escolhido(glifo: Option<u16>, avanco: Option<u16>, unidades_por_em: u16) -> LarguraAvanco {
    match glifo {
        Some(_) => LarguraAvanco::Medida(
            match avanco {
                Some(a) => a,
                None => 0,
            },
        ),
        None => LarguraAvanco::Substituta { unidades_por_em },
    }
}

/// Escolhe a largura de avanco a partir do que a fonte respondeu: o glifo
/// do caractere, o avanco desse glifo e as unidades por em.
pub fn decidir_avanco(glifo: Option<u16>, avanco: Option<u16>, unidades_por_em: u16) -> (r: LarguraAvanco)
    ensures
        r == avanco_escolhido(glifo, avanco, unidades_por_em),
{
    match glifo {
        Some(_) => LarguraAvanco::Medida(
            match avanco {
                Some(a) => a,
                None => 0,
            },
        ),
        None => LarguraAvanco::Substituta { unidades_por_em },
    }
}

/// Largura de avanco de `ch` na fonte em `dados`; `None` quando os dados
/// nao se leem como fonte.
pub open spec fn largura_nos_dados(dados: Seq<u8>, ch: char) -> Option<LarguraAvanco> {
    match unidades_por_em_de(dados) {
        None => None,
        Some(u) => Some(
            avanco_escolhido(
                indice_do_glifo(dados, ch),
                match indice_do_glifo(dados, ch) {
                    Some(g) => avanco_do_glifo(dados, g),
                    None => None,
                },
                u,
            ),
        ),
    }
}

/// Largura de avanco de `ch` na fonte em `dados`: o avanco do glifo do
/// caractere, ou, sem glifo, 0,3 das unidades por em da fonte.
pub fn largura_avanco(dados: &[u8], ch: char) -> (r: Option<LarguraAvanco>)
    ensures
        r == largura_nos_dados(dados@, ch),
        r matches Some(LarguraAvanco::Substituta { unidades_por_em }) ==> 16 <= unidades_por_em <= 16384,
{
    let u = match unidades_por_em(dados) {
        Some(u) => u,
        None => return None,
    };
    let g = glifo(dados, ch);
    let a = match g {
        Some(id) => avanco_horizontal(dados, id),
        None => None,
    };
    Some(decidir_avanco(g, a, u))
}

/// O avanco dado, ou 0 quando nao ha.
pub open spec fn ou_zero(avanco: Option<u16>) -> u16 {
    match avanco {
        Some(a) => a,
        None => 0,
    }
}

/// A largura de um caractere vem da fonte: se a fonte se le e tem um glifo
/// `g` para `ch` (espaco e letras acentuadas inclusive), a largura e o
/// avanco de `g` (0 so quando a fonte nao traz avanco para `g`); a largura
/// substituta, 0,3 do em, so vale quando a fonte nao tem glifo para `ch`;
/// dados que nao se leem como fonte nao dao largura.
pub proof fn lei_largura_vem_da_fonte(dados: Seq<u8>, ch: char)
    ensures
        unidades_por_em_de(dados) is None ==> largura_nos_dados(dados, ch) is None,
        unidades_por_em_de(dados) is Some ==> (indice_do_glifo(dados, ch) matches Some(g)
            ==> largura_nos_dados(dados, ch) == Some(LarguraAvanco::Medida(ou_zero(avanco_do_glifo(dados, g))))),
        indice_do_glifo(dados, ch) is None ==> (unidades_por_em_de(dados) matches Some(u)
            ==> largura_nos_dados(dados, ch) == Some((LarguraAvanco::Substituta { unidades_por_em: u }))),
{
}

/// A escolha da largura: havendo glifo, o avanco dado (ou 0); sem glifo,
/// a substituta com as unidades por em dadas. O avanco so conta quando ha
/// glifo.
pub proof fn lei_escolha_do_avanco(glifo: Option<u16>, avanco: Option<u16>, unidades_por_em: u16)
    ensures
        glifo is Some ==> avanco_escolhido(glifo, avanco, unidades_por_em) == LarguraAvanco::Medida(ou_zero(avanco)),
        glifo is None ==> avanco_escolhido(glifo, avanco, unidades_por_em) == (LarguraAvanco::Substituta { unidades_por_em }),
{
}

/// Por que a altura de referencia nao pode ser medida.
#[derive(PartialEq, Eq, Structural, Clone, Copy, Debug)]
pub enum ErroReferencia {
    /// Os dados nao se leem como fonte.
    FonteIlegivel,
    /// A fonte nao tem glifo para o caractere de referencia.
    SemGlifo,
    /// O glifo de referencia nao tem contorno.
    SemContorno,
}

/// Altura (em unidades da fonte) do contorno do glifo de `ch`: a distancia
/// entre o ponto mais baixo e o mais alto.
pub open spec fn altura_medida(dados: Seq<u8>, ch: char) -> Result<i32, ErroReferencia> {
    if unidades_por_em_de(dados) is None {
        Err(ErroReferencia::FonteIlegivel)
    } else {
        match indice_do_glifo(dados, ch) {
            None => Err(ErroReferencia::SemGlifo),
            Some(g) => match caixa_do_glifo(dados, g) {
                None => Err(ErroReferencia::SemContorno),
                Some(b) => Ok((b.3 - b.1) as i32),
            },
        }
    }
}

/// Mede a altura de referencia da fonte no glifo de `ch` (o "H" para o
/// texto do arco), em vez de confiar na altura de maiusculas que a fonte
/// declara.
pub fn altura_de_referencia(dados: &[u8], ch: char) -> (r: Result<i32, ErroReferencia>)
    ensures
        r == altura_medida(dados@, ch),
{
    if unidades_por_em(dados).is_none() {
        return Err(ErroReferencia::FonteIlegivel);
    }
    match glifo(dados, ch) {
        None => Err(ErroReferencia::SemGlifo),
        Some(g) => match caixa(dados, g) {
            None => Err(ErroReferencia::SemContorno),
            Some(b) => Ok(b.3 as i32 - b.1 as i32),
        },
    }
}

} // verus!
