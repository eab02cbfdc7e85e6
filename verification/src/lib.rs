//! Regras do gerador de filtros de perfil: o texto que corre no arco, a
//! cor de cada glifo, o numero de urna de cada candidatura e o recorte da
//! foto de teste. O desenho em si (curvas, rasterizacao, arquivos) fica no
//! programa que usa esta biblioteca.

pub mod texto;
pub mod cargos;
pub mod arco;
pub mod lote;
pub mod fonte;
pub mod recorte;
