use vstd::prelude::*;

use crate::texto::mesmo_texto;
use vstd::string::*;

verus! {

/// Titulo do cargo, flexionado pelo genero: `"m"` da a forma masculina,
/// qualquer outro valor a feminina; cargo desconhecido da texto vazio.
pub open spec fn titulo_do_cargo(cargo: Seq<char>, genero: Seq<char>) -> Seq<char> {
    let masculino = genero == "m"@;
    if cargo == "presidente"@ {
        if masculino { "Presidente"@ } else { "Presidenta"@ }
    } else if cargo == "governador"@ {
        if masculino { "Governador"@ } else { "Governadora"@ }
    } else if cargo == "senador"@ {
        if masculino { "Senador"@ } else { "Senadora"@ }
    } else if cargo == "deputado-federal"@ || cargo == "deputado-estadual"@ {
        if masculino { "Deputado"@ } else { "Deputada"@ }
    } else {
        ""@
    }
}

pub fn cargo_genero(cargo: &str, genero: &str) -> (r: &'static str)
    ensures
        r@ == titulo_do_cargo(cargo@, genero@),
{
    let masculino = mesmo_texto(genero, "m");
    if mesmo_texto(cargo, "presidente") {
        if masculino { "Presidente" } else { "Presidenta" }
    } else if mesmo_texto(cargo, "governador") {
        if masculino { "Governador" } else { "Governadora" }
    } else if mesmo_texto(cargo, "senador") {
        if masculino { "Senador" } else { "Senadora" }
    } else if mesmo_texto(cargo, "deputado-federal") || mesmo_texto(cargo, "deputado-estadual") {
        if masculino { "Deputado" } else { "Deputada" }
    } else {
        ""
    }
}


/// Cargos que levam numero de urna proprio (os majoritarios usam o numero
/// do partido).
#[derive(PartialEq, Eq, Structural, Clone, Copy, Debug)]
pub enum CargoNumerado {
    Senador,
    DeputadoFederal,
    DeputadoEstadual,
}

impl CargoNumerado {
    /// Quantidade de digitos do numero de urna do cargo (regra do TSE).
    pub open spec fn spec_digitos(self) -> usize {
        match self {
            CargoNumerado::Senador => 3,
            CargoNumerado::DeputadoFederal => 4,
            CargoNumerado::DeputadoEstadual => 5,
        }
    }

    pub fn digitos(&self) -> (r: usize)
        ensures
            r == self.spec_digitos(),
    {
        match self {
            CargoNumerado::Senador => 3,
            CargoNumerado::DeputadoFederal => 4,
            CargoNumerado::DeputadoEstadual => 5,
        }
    }
}

pub open spec fn cargo_numerado_de(cargo: Seq<char>) -> Option<CargoNumerado> {
    if cargo == "senador"@ {
        Some(CargoNumerado::Senador)
    } else if cargo == "deputado-federal"@ {
        Some(CargoNumerado::DeputadoFederal)
    } else if cargo == "deputado-estadual"@ {
        Some(CargoNumerado::DeputadoEstadual)
    } else {
        None
    }
}

/// Qual cargo com numero proprio o texto `cargo` nomeia, se algum.
pub fn cargo_numerado(cargo: &str) -> (r: Option<CargoNumerado>)
    ensures
        r == cargo_numerado_de(cargo@),
{
    if mesmo_texto(cargo, "senador") {
        Some(CargoNumerado::Senador)
    } else if mesmo_texto(cargo, "deputado-federal") {
        Some(CargoNumerado::DeputadoFederal)
    } else if mesmo_texto(cargo, "deputado-estadual") {
        Some(CargoNumerado::DeputadoEstadual)
    } else {
        None
    }
}

pub open spec fn digitos_do_cargo(cargo: Seq<char>) -> Option<usize> {
    match cargo_numerado_de(cargo) {
        Some(c) => Some(c.spec_digitos()),
        None => None,
    }
}

/// Digitos do numero de urna: senador 3, deputado federal 4, deputado
/// estadual 5; os demais cargos nao tem numero proprio.
pub fn digitos_por_cargo(cargo: &str) -> (r: Option<usize>)
    ensures
        r == digitos_do_cargo(cargo@),
        cargo@ == "senador"@ ==> r == Some(3usize),
        cargo@ == "deputado-federal"@ ==> r == Some(4usize),
        cargo@ == "deputado-estadual"@ ==> r == Some(5usize),
{
    proof {
        lema_cargos_distintos();
    }
    match cargo_numerado(cargo) {
        Some(c) => Some(c.digitos()),
        None => None,
    }
}

/// Quantos espacos de rastrejo entram num numero de urna: um entre cada
/// par de digitos vizinhos, nenhum depois do ultimo (nem antes do primeiro).
pub fn lacunas_entre_digitos(digitos: &str) -> (r: usize)
    ensures
        digitos@.len() > 0 ==> r == digitos@.len() - 1,
        digitos@.len() == 0 ==> r == 0,
{
    let n = digitos.unicode_len();
    if n > 0 {
        n - 1
    } else {
        0
    }
}

/// Os nomes de cargo reconhecidos sao dois a dois distintos.
pub(crate) proof fn lema_cargos_distintos()
    ensures
        "presidente"@ != "governador"@,
        "presidente"@ != "senador"@,
        "presidente"@ != "deputado-federal"@,
        "presidente"@ != "deputado-estadual"@,
        "governador"@ != "senador"@,
        "governador"@ != "deputado-federal"@,
        "governador"@ != "deputado-estadual"@,
        "senador"@ != "deputado-federal"@,
        "senador"@ != "deputado-estadual"@,
        "deputado-federal"@ != "deputado-estadual"@,
{
    reveal_strlit("presidente");
    reveal_strlit("governador");
    reveal_strlit("senador");
    reveal_strlit("deputado-federal");
    reveal_strlit("deputado-estadual");
    assert("presidente"@.len() == 10);
    assert("governador"@.len() == 10);
    assert("senador"@.len() == 7);
    assert("deputado-federal"@.len() == 16);
    assert("deputado-estadual"@.len() == 17);
    assert("presidente"@[0] != "governador"@[0]);
}

/// Todo cargo que leva numero proprio tem titulo, nas duas flexoes de
/// genero: nenhuma candidatura numerada fica sem cargo escrito no arco.
pub proof fn lei_cargo_numerado_tem_titulo(cargo: Seq<char>, genero: Seq<char>)
    requires
        cargo_numerado_de(cargo) is Some,
    ensures
        titulo_do_cargo(cargo, genero).len() > 0,
{
    lema_cargos_distintos();
    reveal_strlit("Senador");
    reveal_strlit("Senadora");
    reveal_strlit("Deputado");
    reveal_strlit("Deputada");
}

/// Os cargos majoritarios (presidente, governador) nunca levam numero
/// proprio.
pub proof fn lei_majoritarios_sem_numero_proprio(cargo: Seq<char>)
    requires
        cargo == "presidente"@ || cargo == "governador"@,
    ensures
        digitos_do_cargo(cargo) is None,
{
    lema_cargos_distintos();
}

/// Os cinco cargos que tem titulo no arco.
pub open spec fn cargo_com_titulo(cargo: Seq<char>) -> bool {
    cargo == "presidente"@ || cargo == "governador"@ || cargo == "senador"@
        || cargo == "deputado-federal"@ || cargo == "deputado-estadual"@
}

/// `"m"` e `"f"` sao generos distintos.
pub(crate) proof fn lema_generos_distintos()
    ensures
        "m"@ != "f"@,
{
    reveal_strlit("m");
    reveal_strlit("f");
    assert("m"@[0] != "f"@[0]);
}

/// A flexao so depende de o genero ser exatamente `"m"`: qualquer outro
/// genero (vazio, `"f"`, `"x"`, `"M"`) da o mesmo titulo que `"f"`.
pub proof fn lei_flexao_so_depende_de_m(cargo: Seq<char>, genero: Seq<char>)
    requires
        genero != "m"@,
    ensures
        titulo_do_cargo(cargo, genero) == titulo_do_cargo(cargo, "f"@),
{
    lema_generos_distintos();
}

/// Os titulos no arco: para `"m"`, Presidente, Governador, Senador e
/// Deputado (federal ou estadual); para qualquer outro genero, Presidenta,
/// Governadora, Senadora e Deputada. O titulo feminino termina em `'a'` e o
/// masculino nao; cargo desconhecido nao tem titulo.
pub proof fn lei_titulos_flexionados(cargo: Seq<char>, genero: Seq<char>)
    ensures
        cargo == "presidente"@ ==> titulo_do_cargo(cargo, genero) == (if genero == "m"@ {
            "Presidente"@
        } else {
            "Presidenta"@
        }),
        cargo == "governador"@ ==> titulo_do_cargo(cargo, genero) == (if genero == "m"@ {
            "Governador"@
        } else {
            "Governadora"@
        }),
        cargo == "senador"@ ==> titulo_do_cargo(cargo, genero) == (if genero == "m"@ {
            "Senador"@
        } else {
            "Senadora"@
        }),
        cargo == "deputado-federal"@ || cargo == "deputado-estadual"@ ==> titulo_do_cargo(cargo, genero)
            == (if genero == "m"@ {
            "Deputado"@
        } else {
            "Deputada"@
        }),
        cargo_com_titulo(cargo) ==> titulo_do_cargo(cargo, genero).len() > 0 && (titulo_do_cargo(
            cargo,
            genero,
        ).last() == 'a' <==> genero != "m"@),
        !cargo_com_titulo(cargo) ==> titulo_do_cargo(cargo, genero).len() == 0,
{
    lema_cargos_distintos();
    reveal_strlit("m");
    reveal_strlit("Presidente");
    reveal_strlit("Presidenta");
    reveal_strlit("Governador");
    reveal_strlit("Governadora");
    reveal_strlit("Senador");
    reveal_strlit("Senadora");
    reveal_strlit("Deputado");
    reveal_strlit("Deputada");
    reveal_strlit("");
    assert("Presidente"@.len() == 10 && "Presidente"@[9] == 'e');
    assert("Presidenta"@.len() == 10 && "Presidenta"@[9] == 'a');
    assert("Governador"@.len() == 10 && "Governador"@[9] == 'r');
    assert("Governadora"@.len() == 11 && "Governadora"@[10] == 'a');
    assert("Senador"@.len() == 7 && "Senador"@[6] == 'r');
    assert("Senadora"@.len() == 8 && "Senadora"@[7] == 'a');
    assert("Deputado"@.len() == 8 && "Deputado"@[7] == 'o');
    assert("Deputada"@.len() == 8 && "Deputada"@[7] == 'a');
    assert(""@.len() == 0);
}

} // verus!
