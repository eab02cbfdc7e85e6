use vstd::prelude::*;

verus! {

/// Deslocamento que centraliza um recorte de tamanho `alvo` dentro de uma
/// dimensao `dimensao` da foto ja redimensionada: metade do que sobra, ou
/// zero quando nada sobra.
pub fn corte_centralizado(dimensao: u32, alvo: u32) -> (r: u32)
    ensures
        r == (if dimensao > alvo { (dimensao - alvo) / 2 } else { 0 }),
        dimensao >= alvo ==> r + alvo <= dimensao,
        dimensao >= alvo ==> dimensao - (r + alvo) - r <= 1,
{
    if dimensao > alvo {
        (dimensao - alvo) / 2
    } else {
        0
    }
}

} // verus!
