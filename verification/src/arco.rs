use vstd::prelude::*;
use vstd::string::*;

verus! {

/// O que `str::to_uppercase` devolve para um texto: o mapeamento de
/// maiusculas do Unicode, que pode mudar a quantidade de caracteres
/// (`"ß"` vira `"SS"`).
pub uninterp spec fn em_maiusculas(s: Seq<char>) -> Seq<char>;

/// Chama `str::to_uppercase`; o contrato diz so que o resultado e o nome
/// acima aplicado ao texto dado, e mais nada das tabelas do Unicode.
#[verifier::external_body]
fn maiusculas(s: &str) -> (r: String)
    ensures
        r@ == em_maiusculas(s@),
{
    s.to_uppercase()
}

/// Os tres espacos que separam os dois blocos do arco.
pub open spec fn separador() -> Seq<char> {
    seq![' ', ' ', ' ']
}

/// O nome vem primeiro quando pedido, ou quando nao ha cargo.
pub open spec fn primeiro_e_nome(cargo: Seq<char>, nome_primeiro: bool) -> bool {
    nome_primeiro || cargo.len() == 0
}

/// Texto escrito no arco: so o nome, ou "NOME   CARGO", ou "CARGO   NOME",
/// tudo em maiusculas.
pub open spec fn texto_do_arco(nome: Seq<char>, cargo: Seq<char>, nome_primeiro: bool) -> Seq<char> {
    if cargo.len() == 0 {
        em_maiusculas(nome)
    } else if nome_primeiro {
        em_maiusculas(nome) + separador() + em_maiusculas(cargo)
    } else {
        em_maiusculas(cargo) + separador() + em_maiusculas(nome)
    }
}

/// Tamanho, em caracteres, do bloco que abre o texto do arco (ja em
/// maiusculas).
pub open spec fn tamanho_do_primeiro_bloco(nome: Seq<char>, cargo: Seq<char>, nome_primeiro: bool) -> nat {
    if primeiro_e_nome(cargo, nome_primeiro) {
        em_maiusculas(nome).len()
    } else {
        em_maiusculas(cargo).len()
    }
}

/// De que cor sai cada glifo do arco.
#[derive(PartialEq, Eq, Structural, Clone, Copy, Debug)]
pub enum Bloco {
    /// Espaco: nao se desenha.
    Espaco,
    /// Glifo do nome (cor do nome).
    Nome,
    /// Glifo do cargo (cor do cargo).
    Cargo,
}

/// Bloco do glifo `c`, na posicao `indice` do texto.
pub open spec fn bloco_do_glifo(c: char, indice: int, tamanho_primeiro_bloco: int, primeiro_bloco_e_nome: bool) -> Bloco {
    if c == ' ' {
        Bloco::Espaco
    } else if (indice < tamanho_primeiro_bloco) == primeiro_bloco_e_nome {
        Bloco::Nome
    } else {
        Bloco::Cargo
    }
}

/// O texto do arco e como ele se divide.
pub struct TextoArco {
    pub texto: String,
    pub tamanho_primeiro_bloco: usize,
    pub primeiro_bloco_e_nome: bool,
}

/// Monta o texto do arco a partir do nome e do cargo.
pub fn compor_texto_arco(nome: &str, cargo: &str, nome_primeiro: bool) -> (r: TextoArco)
    ensures
        r.texto@ == texto_do_arco(nome@, cargo@, nome_primeiro),
        r.primeiro_bloco_e_nome == primeiro_e_nome(cargo@, nome_primeiro),
        r.tamanho_primeiro_bloco == tamanho_do_primeiro_bloco(nome@, cargo@, nome_primeiro),
{
    let primeiro_bloco_e_nome = nome_primeiro || cargo.is_empty();
    if cargo.is_empty() {
        let texto = maiusculas(nome);
        let tamanho_primeiro_bloco = texto.as_str().unicode_len();
        return TextoArco { texto, tamanho_primeiro_bloco, primeiro_bloco_e_nome };
    }
    let (a, b) = if nome_primeiro { (nome, cargo) } else { (cargo, nome) };
    let primeiro = maiusculas(a);
    let segundo = maiusculas(b);
    let tamanho_primeiro_bloco = primeiro.as_str().unicode_len();
    proof {
        reveal_strlit("   ");
        assert("   "@ =~= separador());
    }
    let texto = primeiro.concat("   ").concat(segundo.as_str());
    TextoArco { texto, tamanho_primeiro_bloco, primeiro_bloco_e_nome }
}

/// Classifica cada glifo do texto: espaco, nome ou cargo.
pub fn classificar_glifos(texto: &str, tamanho_primeiro_bloco: usize, primeiro_bloco_e_nome: bool) -> (r: Vec<Bloco>)
    ensures
        r@.len() == texto@.len(),
        forall|i: int|
            0 <= i < texto@.len() ==> #[trigger] r@[i] == bloco_do_glifo(
                texto@[i],
                i,
                tamanho_primeiro_bloco as int,
                primeiro_bloco_e_nome,
            ),
{
    let n = texto.unicode_len();
    let mut r: Vec<Bloco> = Vec::new();
    let mut i: usize = 0;
    while i < n
        invariant
            n == texto@.len(),
            i <= n,
            r@.len() == i,
            forall|j: int|
                0 <= j < i ==> #[trigger] r@[j] == bloco_do_glifo(
                    texto@[j],
                    j,
                    tamanho_primeiro_bloco as int,
                    primeiro_bloco_e_nome,
                ),
        decreases n - i,
    {
        let c = texto.get_char(i);
        let b = if c == ' ' {
            Bloco::Espaco
        } else if (i < tamanho_primeiro_bloco) == primeiro_bloco_e_nome {
            Bloco::Nome
        } else {
            Bloco::Cargo
        };
        r.push(b);
        i += 1;
    }
    r
}

impl TextoArco {
    /// O bloco de cada glifo do texto, na ordem do texto.
    pub fn blocos(&self) -> (r: Vec<Bloco>)
        ensures
            r@.len() == self.texto@.len(),
            forall|i: int|
                0 <= i < self.texto@.len() ==> #[trigger] r@[i] == bloco_do_glifo(
                    self.texto@[i],
                    i,
                    self.tamanho_primeiro_bloco as int,
                    self.primeiro_bloco_e_nome,
                ),
    {
        classificar_glifos(self.texto.as_str(), self.tamanho_primeiro_bloco, self.primeiro_bloco_e_nome)
    }
}

/// Onde comeca, no texto do arco, o trecho que traz o nome.
pub open spec fn inicio_do_nome(nome: Seq<char>, cargo: Seq<char>, nome_primeiro: bool) -> int {
    if primeiro_e_nome(cargo, nome_primeiro) {
        0
    } else {
        em_maiusculas(cargo).len() + 3int
    }
}

/// Onde comeca, no texto do arco, o trecho que traz o cargo.
pub open spec fn inicio_do_cargo(nome: Seq<char>, cargo: Seq<char>, nome_primeiro: bool) -> int {
    if primeiro_e_nome(cargo, nome_primeiro) {
        em_maiusculas(nome).len() + 3int
    } else {
        0
    }
}

/// As cores nao mudam com a ordem: seja "NOME   CARGO" ou "CARGO   NOME",
/// todo glifo (que nao seja espaco) do trecho do nome sai na cor do nome e
/// todo glifo do trecho do cargo sai na cor do cargo.
pub proof fn lei_cores_independem_da_ordem(nome: Seq<char>, cargo: Seq<char>, nome_primeiro: bool, i: int)
    requires
        0 <= i < texto_do_arco(nome, cargo, nome_primeiro).len(),
        texto_do_arco(nome, cargo, nome_primeiro)[i] != ' ',
    ensures
        ({
            let b = bloco_do_glifo(
                texto_do_arco(nome, cargo, nome_primeiro)[i],
                i,
                tamanho_do_primeiro_bloco(nome, cargo, nome_primeiro) as int,
                primeiro_e_nome(cargo, nome_primeiro),
            );
            let n0 = inicio_do_nome(nome, cargo, nome_primeiro);
            let c0 = inicio_do_cargo(nome, cargo, nome_primeiro);
            &&& (b == Bloco::Nome <==> n0 <= i < n0 + em_maiusculas(nome).len())
            &&& (b == Bloco::Cargo <==> c0 <= i < c0 + (if cargo.len() == 0 { 0 } else { em_maiusculas(cargo).len() }))
        }),
{
    let t = texto_do_arco(nome, cargo, nome_primeiro);
    if cargo.len() != 0 {
        let (a, b) = if nome_primeiro { (nome, cargo) } else { (cargo, nome) };
        let ua = em_maiusculas(a);
        assert(t == ua + separador() + em_maiusculas(b));
        if ua.len() <= i < ua.len() + 3 {
            assert(t[i] == separador()[i - ua.len()]);
        }
    }
}

/// Sem cargo, a ordem pedida nao muda nada: o texto, o tamanho do primeiro
/// bloco e quem abre o texto sao os mesmos.
pub proof fn lei_sem_cargo_ordem_indiferente(nome: Seq<char>)
    ensures
        texto_do_arco(nome, Seq::empty(), true) == texto_do_arco(nome, Seq::empty(), false),
        tamanho_do_primeiro_bloco(nome, Seq::empty(), true) == tamanho_do_primeiro_bloco(nome, Seq::empty(), false),
        primeiro_e_nome(Seq::empty(), true) == primeiro_e_nome(Seq::empty(), false),
{
}

} // verus!
