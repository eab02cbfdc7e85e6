use gerador::fonte::{altura_de_referencia, largura_avanco, ErroReferencia, LarguraAvanco};

fn u16be(v: &mut Vec<u8>, x: u16) {
    v.extend_from_slice(&x.to_be_bytes());
}

fn i16be(v: &mut Vec<u8>, x: i16) {
    v.extend_from_slice(&x.to_be_bytes());
}

fn u32be(v: &mut Vec<u8>, x: u32) {
    v.extend_from_slice(&x.to_be_bytes());
}

/// Uma fonte TrueType minima: glifo 1 e um retangulo de (100, 0) a
/// (500, 700) ligado ao 'H'; glifo 2 nao tem contorno e esta ligado ao '8';
/// 1000 unidades por em; avancos 500, 600 e 300.
fn fonte_minima() -> Vec<u8> {
    let mut cmap = Vec::new();
    u16be(&mut cmap, 0);
    u16be(&mut cmap, 1);
    u16be(&mut cmap, 0);
    u16be(&mut cmap, 3);
    u32be(&mut cmap, 12);
    u16be(&mut cmap, 0);
    u16be(&mut cmap, 262);
    u16be(&mut cmap, 0);
    let mut ids = vec![0u8; 256];
    ids[b'H' as usize] = 1;
    ids[b'8' as usize] = 2;
    cmap.extend_from_slice(&ids);

    let mut glifo = Vec::new();
    i16be(&mut glifo, 1);
    for _ in 0..4 {
        i16be(&mut glifo, 0);
    }
    u16be(&mut glifo, 3);
    u16be(&mut glifo, 0);
    glifo.extend_from_slice(&[1, 1, 1, 1]);
    for dx in [100i16, 400, 0, -400] {
        i16be(&mut glifo, dx);
    }
    for dy in [0i16, 0, 700, 0] {
        i16be(&mut glifo, dy);
    }
    let glyf = glifo.clone();

    let mut head = vec![0u8; 54];
    head[0..4].copy_from_slice(&0x0001_0000u32.to_be_bytes());
    head[12..16].copy_from_slice(&0x5F0F_3CF5u32.to_be_bytes());
    head[18..20].copy_from_slice(&1000u16.to_be_bytes());
    head[50..52].copy_from_slice(&1u16.to_be_bytes());

    let mut hhea = vec![0u8; 36];
    hhea[0..4].copy_from_slice(&0x0001_0000u32.to_be_bytes());
    hhea[34..36].copy_from_slice(&3u16.to_be_bytes());

    let mut hmtx = Vec::new();
    for (avanco, lsb) in [(500u16, 0i16), (600, 100), (300, 0)] {
        u16be(&mut hmtx, avanco);
        i16be(&mut hmtx, lsb);
    }

    let mut loca = Vec::new();
    let fim = glyf.len() as u32;
    for off in [0u32, 0, fim, fim] {
        u32be(&mut loca, off);
    }

    let mut maxp = Vec::new();
    u32be(&mut maxp, 0x0000_5000);
    u16be(&mut maxp, 3);

    let tabelas: Vec<(&[u8; 4], Vec<u8>)> = vec![
        (b"cmap", cmap),
        (b"glyf", glyf),
        (b"head", head),
        (b"hhea", hhea),
        (b"hmtx", hmtx),
        (b"loca", loca),
        (b"maxp", maxp),
    ];
    let mut fonte = Vec::new();
    u32be(&mut fonte, 0x0001_0000);
    u16be(&mut fonte, tabelas.len() as u16);
    u16be(&mut fonte, 0);
    u16be(&mut fonte, 0);
    u16be(&mut fonte, 0);
    let mut deslocamento = 12 + 16 * tabelas.len() as u32;
    for (tag, dados) in &tabelas {
        fonte.extend_from_slice(&tag[..]);
        u32be(&mut fonte, 0);
        u32be(&mut fonte, deslocamento);
        u32be(&mut fonte, dados.len() as u32);
        deslocamento += dados.len() as u32;
    }
    for (_, dados) in &tabelas {
        fonte.extend_from_slice(dados);
    }
    fonte
}

#[test]
fn largura_do_glifo_da_fonte() {
    let f = fonte_minima();
    assert_eq!(largura_avanco(&f, 'H'), Some(LarguraAvanco::Medida(600)));
    assert_eq!(largura_avanco(&f, '8'), Some(LarguraAvanco::Medida(300)));
}

#[test]
fn largura_substituta_sem_glifo() {
    let f = fonte_minima();
    assert_eq!(largura_avanco(&f, 'A'), Some(LarguraAvanco::Substituta { unidades_por_em: 1000 }));
    assert_eq!(largura_avanco(&f, 'ç'), Some(LarguraAvanco::Substituta { unidades_por_em: 1000 }));
}

#[test]
fn altura_medida_no_contorno() {
    let f = fonte_minima();
    assert_eq!(altura_de_referencia(&f, 'H'), Ok(700));
    assert_eq!(altura_de_referencia(&f, 'A'), Err(ErroReferencia::SemGlifo));
    assert_eq!(altura_de_referencia(&f, '8'), Err(ErroReferencia::SemContorno));
}

#[test]
fn dados_que_nao_sao_fonte() {
    assert_eq!(largura_avanco(&[], 'H'), None);
    assert_eq!(largura_avanco(&[0, 1, 0, 0, 0, 0], 'H'), None);
    assert_eq!(altura_de_referencia(&[], 'H'), Err(ErroReferencia::FonteIlegivel));
    assert_eq!(altura_de_referencia(&[1, 2, 3, 4], '8'), Err(ErroReferencia::FonteIlegivel));
}

