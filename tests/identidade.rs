use permissoes::{Grupo, Usuario};

#[test]
fn membro_joao_entra_e_sai() {
    let mut grupo = Grupo::new(String::from("Admin"), 1);
    let usuario = Usuario::new(String::from("João"), 1001);
    grupo.adiciona_membro(usuario);
    assert_eq!(grupo.listar_grupos(), vec![(String::from("João"), 1001)]);
    grupo.remover_membro("João");
    assert_eq!(grupo.listar_grupos(), Vec::<(String, u16)>::new());
}

#[test]
fn remover_membro_ausente_nada_muda() {
    let mut grupo = Grupo::new(String::from("Admin"), 1);
    grupo.adiciona_membro(Usuario::new(String::from("Ana"), 1002));
    grupo.adiciona_membro(Usuario::new(String::from("Bia"), 1003));
    let antes = grupo.listar_grupos();
    grupo.remover_membro("Caio");
    assert_eq!(grupo.listar_grupos(), antes);
    assert_eq!(grupo.membros.len(), 2);
}

#[test]
fn remover_membro_de_grupo_vazio() {
    let mut grupo = Grupo::new(String::from("Vazio"), 9);
    grupo.remover_membro("Ana");
    assert!(grupo.listar_grupos().is_empty());
    assert_eq!(grupo.nome, "Vazio");
    assert_eq!(grupo.gid, 9);
}

#[test]
fn remover_membro_tira_todos_de_mesmo_nome() {
    let mut grupo = Grupo::new(String::from("Dev"), 2);
    grupo.adiciona_membro(Usuario::new(String::from("Ana"), 1));
    grupo.adiciona_membro(Usuario::new(String::from("Bia"), 2));
    grupo.adiciona_membro(Usuario::new(String::from("Ana"), 3));
    grupo.remover_membro("Ana");
    assert_eq!(grupo.listar_grupos(), vec![(String::from("Bia"), 2)]);
}

#[test]
fn grupos_do_usuario_na_ordem() {
    let mut u = Usuario::new(String::from("Ana"), 1000);
    assert!(u.listar_grupos().is_empty());
    u.adiciona_grupo(Grupo::new(String::from("Admin"), 1));
    u.adiciona_grupo(Grupo::new(String::from("Dev"), 2));
    u.adiciona_grupo(Grupo::new(String::from("Admin"), 1));
    assert_eq!(
        u.listar_grupos(),
        vec![
            (String::from("Admin"), 1),
            (String::from("Dev"), 2),
            (String::from("Admin"), 1)
        ]
    );
    u.remove_grupo("Admin");
    assert_eq!(u.listar_grupos(), vec![(String::from("Dev"), 2)]);
    u.remove_grupo("Ops");
    assert_eq!(u.listar_grupos(), vec![(String::from("Dev"), 2)]);
    assert_eq!(u.nome, "Ana");
    assert_eq!(u.uid, 1000);
}

#[test]
fn uid_e_gid_maximos() {
    let mut g = Grupo::new(String::from("root"), u16::MAX);
    g.adiciona_membro(Usuario::new(String::from("r"), u16::MAX));
    assert_eq!(g.listar_grupos(), vec![(String::from("r"), u16::MAX)]);
    assert_eq!(g.gid, 65535);
}
