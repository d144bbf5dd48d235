use vstd::prelude::*;

use crate::filtro::{Nomeado, remove_por_nome, sem_nome};

verus! {

/// Um usuário, com os grupos a que pertence, na ordem em que entraram.
pub struct Usuario {
    pub nome: String,
    pub uid: u16,
    pub grupos: Vec<Grupo>,
}

/// Um grupo, com os seus membros, na ordem em que entraram.
pub struct Grupo {
    pub nome: String,
    pub gid: u16,
    pub membros: Vec<Usuario>,
}

/// Os pares (nome, gid) dos grupos de `s`, na mesma ordem.
pub open spec fn registros_de_grupos(s: Seq<Grupo>) -> Seq<(Seq<char>, u16)> {
    s.map_values(|g: Grupo| (g.nome@, g.gid))
}

/// Os pares (nome, uid) dos usuários de `s`, na mesma ordem.
pub open spec fn registros_de_usuarios(s: Seq<Usuario>) -> Seq<(Seq<char>, u16)> {
    s.map_values(|u: Usuario| (u.nome@, u.uid))
}

/// A vista de uma lista de pares (nome, número).
pub open spec fn vista_registros(r: Seq<(String, u16)>) -> Seq<(Seq<char>, u16)> {
    r.map_values(|p: (String, u16)| (p.0@, p.1))
}

impl Nomeado for Usuario {
    open spec fn nome_de(&self) -> Seq<char> {
        self.nome@
    }

    fn nome_ref(&self) -> (r: &String) {
        &self.nome
    }
}

impl Nomeado for Grupo {
    open spec fn nome_de(&self) -> Seq<char> {
        self.nome@
    }

    fn nome_ref(&self) -> (r: &String) {
        &self.nome
    }
}

impl Usuario {
    /// Cria um usuário sem grupos.
    pub fn new(nome: String, uid: u16) -> (r: Usuario)
        ensures
            r.nome == nome,
            r.uid == uid,
            r.grupos@.len() == 0,
    {
        Usuario { nome, uid, grupos: Vec::new() }
    }

    /// Acrescenta um grupo ao fim da lista, mesmo que já haja um de mesmo nome.
    pub fn adiciona_grupo(&mut self, grupo: Grupo)
        ensures
            final(self).nome == old(self).nome,
            final(self).uid == old(self).uid,
            final(self).grupos@ == old(self).grupos@.push(grupo),
    {
        self.grupos.push(grupo);
    }

    /// Remove todos os grupos de nome `nome_grupo`; os outros ficam, na mesma ordem.
    pub fn remove_grupo(&mut self, nome_grupo: &str)
        ensures
            final(self).nome == old(self).nome,
            final(self).uid == old(self).uid,
            final(self).grupos@ == sem_nome(old(self).grupos@, nome_grupo@),
    {
        remove_por_nome(&mut self.grupos, nome_grupo);
    }

    /// Os pares (nome, gid) dos grupos do usuário, na ordem em que entraram.
    pub fn listar_grupos(&self) -> (r: Vec<(String, u16)>)
        ensures
            vista_registros(r@) == registros_de_grupos(self.grupos@),
            r@.len() == self.grupos@.len(),
            forall|i: int|
                0 <= i < r@.len() ==> (#[trigger] r@[i]).0@ == self.grupos@[i].nome@ && r@[i].1
                    == self.grupos@[i].gid,
    {
        let mut r: Vec<(String, u16)> = Vec::new();
        let mut i: usize = 0;
        while i < self.grupos.len()
            invariant
                i <= self.grupos@.len(),
                vista_registros(r@) == registros_de_grupos(self.grupos@.subrange(0, i as int)),
            decreases self.grupos@.len() - i,
        {
            let g = &self.grupos[i];
            let ghost r_antes = r@;
            r.push((g.nome.clone(), g.gid));
            assert(vista_registros(r@) =~= vista_registros(r_antes).push((g.nome@, g.gid)));
            assert(self.grupos@.subrange(0, i + 1) =~= self.grupos@.subrange(0, i as int).push(
                self.grupos@[i as int],
            ));
            assert(registros_de_grupos(self.grupos@.subrange(0, i + 1)) =~= registros_de_grupos(
                self.grupos@.subrange(0, i as int),
            ).push((g.nome@, g.gid)));
            i = i + 1;
        }
        assert(self.grupos@.subrange(0, i as int) =~= self.grupos@);
        assert forall|k: int| 0 <= k < r@.len() implies (#[trigger] r@[k]).0@ == self.grupos@[k].nome@
            && r@[k].1 == self.grupos@[k].gid by {
            assert(vista_registros(r@)[k] == (r@[k].0@, r@[k].1));
        }
        r
    }
}

impl Grupo {
    /// Cria um grupo sem membros.
    pub fn new(nome: String, gid: u16) -> (r: Grupo)
        ensures
            r.nome == nome,
            r.gid == gid,
            r.membros@.len() == 0,
    {
        Grupo { nome, gid, membros: Vec::new() }
    }

    /// Acrescenta um membro ao fim da lista, mesmo que já haja um de mesmo nome.
    pub fn adiciona_membro(&mut self, usuario: Usuario)
        ensures
            final(self).nome == old(self).nome,
            final(self).gid == old(self).gid,
            final(self).membros@ == old(self).membros@.push(usuario),
    {
        self.membros.push(usuario);
    }

    /// Remove todos os membros de nome `nome_usuario`; os outros ficam, na mesma
    /// ordem. Sem membro desse nome, nada muda.
    pub fn remover_membro(&mut self, nome_usuario: &str)
        ensures
            final(self).nome == old(self).nome,
            final(self).gid == old(self).gid,
            final(self).membros@ == sem_nome(old(self).membros@, nome_usuario@),
    {
        remove_por_nome(&mut self.membros, nome_usuario);
    }

    /// Os pares (nome, uid) dos membros do grupo, na ordem em que entraram.
    pub fn listar_grupos(&self) -> (r: Vec<(String, u16)>)
        ensures
            vista_registros(r@) == registros_de_usuarios(self.membros@),
            r@.len() == self.membros@.len(),
            forall|i: int|
                0 <= i < r@.len() ==> (#[trigger] r@[i]).0@ == self.membros@[i].nome@ && r@[i].1
                    == self.membros@[i].uid,
    {
        let mut r: Vec<(String, u16)> = Vec::new();
        let mut i: usize = 0;
        while i < self.membros.len()
            invariant
                i <= self.membros@.len(),
                vista_registros(r@) == registros_de_usuarios(self.membros@.subrange(0, i as int)),
            decreases self.membros@.len() - i,
        {
            let u = &self.membros[i];
            let ghost r_antes = r@;
            r.push((u.nome.clone(), u.uid));
            assert(vista_registros(r@) =~= vista_registros(r_antes).push((u.nome@, u.uid)));
            assert(self.membros@.subrange(0, i + 1) =~= self.membros@.subrange(0, i as int).push(
                self.membros@[i as int],
            ));
            assert(registros_de_usuarios(self.membros@.subrange(0, i + 1)) =~= registros_de_usuarios(
                self.membros@.subrange(0, i as int),
            ).push((u.nome@, u.uid)));
            i = i + 1;
        }
        assert(self.membros@.subrange(0, i as int) =~= self.membros@);
        assert forall|k: int| 0 <= k < r@.len() implies (#[trigger] r@[k]).0@ == self.membros@[k].nome@
            && r@[k].1 == self.membros@[k].uid by {
            assert(vista_registros(r@)[k] == (r@[k].0@, r@[k].1));
        }
        r
    }
}

} // verus!
