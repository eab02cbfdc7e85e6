# gerador

Gera os filtros de perfil das candidaturas: um arco com nome e cargo em
volta da foto e, conforme o cargo, o numero de urna.

- `src/` e a biblioteca verificada: o texto do arco e a cor de cada glifo
  (`arco`), os titulos e numeros de urna por cargo (`cargos`), o plano de
  cada candidatura e a lista das que estao sem numero (`lote`), a largura de
  avanco de um caractere e a altura do glifo de referencia numa fonte (`fonte`), o recorte centralizado da
  foto de teste (`recorte`) e a comparacao de textos (`texto`).
- `app/` e o programa: le `config.json` e a lista de candidaturas, faz o
  layout no arco e a rasterizacao (ponto flutuante, tiny-skia e resvg) e
  grava os PNGs. `gerador preview_foto <slug> <foto> [saida]` e
  `gerador gerar_lote_teste` sao as ferramentas de teste.
- `tests/` exercita a biblioteca em valores concretos.
