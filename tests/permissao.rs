use permissoes::Permissao;

#[test]
fn octal_das_oito_combinacoes() {
    let mut vistos = Vec::new();
    for r in [false, true] {
        for w in [false, true] {
            for x in [false, true] {
                let d = Permissao::new(r, w, x).octal();
                let esperado = 4 * (r as u8) + 2 * (w as u8) + (x as u8);
                assert_eq!(d, esperado);
                assert!(d <= 7);
                assert!(!vistos.contains(&d));
                vistos.push(d);
            }
        }
    }
    assert_eq!(vistos.len(), 8);
}

#[test]
fn octal_valores_exatos() {
    assert_eq!(Permissao::new(false, false, false).octal(), 0);
    assert_eq!(Permissao::new(false, false, true).octal(), 1);
    assert_eq!(Permissao::new(false, true, false).octal(), 2);
    assert_eq!(Permissao::new(true, false, false).octal(), 4);
    assert_eq!(Permissao::new(true, true, true).octal(), 7);
}

#[test]
fn rwx_valores_exatos() {
    assert_eq!(Permissao::new(true, true, true).rwx(), "rwx");
    assert_eq!(Permissao::new(false, false, false).rwx(), "---");
    assert_eq!(Permissao::new(true, true, false).rwx(), "rw-");
    assert_eq!(Permissao::new(false, false, true).rwx(), "--x");
}

#[test]
fn octal_cinco_e_r_x() {
    let p = Permissao::new(true, false, true);
    assert_eq!(p.octal(), 5);
    assert_eq!(p.rwx(), "r-x");
}

#[test]
fn octal_e_rwx_concordam_bit_a_bit() {
    for r in [false, true] {
        for w in [false, true] {
            for x in [false, true] {
                let p = Permissao::new(r, w, x);
                let d = p.octal();
                let s: Vec<char> = p.rwx().chars().collect();
                assert_eq!(s.len(), 3);
                assert_eq!(s[0] == 'r', d & 4 != 0);
                assert_eq!(s[1] == 'w', d & 2 != 0);
                assert_eq!(s[2] == 'x', d & 1 != 0);
            }
        }
    }
}

#[test]
fn combinacao_rwx_rw_x() {
    let dono = Permissao::new(true, true, true);
    let grupo = Permissao::new(true, true, false);
    let outros = Permissao::new(false, false, true);
    let (octal, rwx) = Permissao::octal_e_rwx_total(&dono, &grupo, &outros);
    // `--x` vale 0·4 + 0·2 + 1 = 1.
    assert_eq!(octal, "761");
    assert_eq!(rwx, "rwx|rw-|--x");
}

#[test]
fn combinacao_754() {
    let dono = Permissao::new(true, true, true);
    let grupo = Permissao::new(true, false, true);
    let outros = Permissao::new(true, false, false);
    let (octal, rwx) = Permissao::octal_e_rwx_total(&dono, &grupo, &outros);
    assert_eq!(octal, "754");
    assert_eq!(rwx, "rwx|r-x|r--");
}

#[test]
fn combinacao_000() {
    let nada = Permissao::new(false, false, false);
    let (octal, rwx) = Permissao::octal_e_rwx_total(&nada, &nada, &nada);
    assert_eq!(octal, "000");
    assert_eq!(rwx, "---|---|---");
}
