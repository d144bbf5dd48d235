use vstd::prelude::*;

use crate::filtro::{Nomeado, fica, remove_por_nome, sem_nome};
use crate::identidade::{Grupo, Usuario};
use crate::permissao::{Permissao, octal_total_de, rwx_total_de};

verus! {

/// Um arquivo: nome, tamanho em bytes, permissões de dono, grupo e outros, e
/// o usuário e o grupo donos.
pub struct Arquivo {
    pub nome: String,
    pub tamanho: u64,
    pub permissoes: (Permissao, Permissao, Permissao),
    pub usuario: Usuario,
    pub grupo: Grupo,
}

/// O que se sabe de um arquivo: nome, tamanho, permissões nas formas octal e
/// simbólica, uid do dono e gid do grupo.
pub struct InfoArquivo {
    pub nome: String,
    pub tamanho: u64,
    pub octal: String,
    pub rwx: String,
    pub uid: u16,
    pub gid: u16,
}

/// Um diretório: nome, arquivos na ordem em que entraram, permissões e dono.
pub struct Diretorio {
    pub nome: String,
    pub arquivos: Vec<Arquivo>,
    pub permissoes: (Permissao, Permissao, Permissao),
    pub dono: Usuario,
}

/// O conteúdo de um diretório: vazio, ou os pares (nome, tamanho) dos arquivos.
pub enum Conteudo {
    Vazio,
    Arquivos(Vec<(String, u64)>),
}

/// A permissão com que um arquivo novo nasce, para as três classes: só escrita.
pub open spec fn permissao_padrao() -> Permissao {
    Permissao { leitura: false, escrita: true, execucao: false }
}

/// Os pares (nome, tamanho) dos arquivos de `s`, na mesma ordem.
pub open spec fn registros_de_arquivos(s: Seq<Arquivo>) -> Seq<(Seq<char>, u64)> {
    s.map_values(|a: Arquivo| (a.nome@, a.tamanho))
}

/// A vista de uma lista de pares (nome, tamanho).
pub open spec fn vista_tamanhos(r: Seq<(String, u64)>) -> Seq<(Seq<char>, u64)> {
    r.map_values(|p: (String, u64)| (p.0@, p.1))
}

impl Nomeado for Arquivo {
    open spec fn nome_de(&self) -> Seq<char> {
        self.nome@
    }

    fn nome_ref(&self) -> (r: &String) {
        &self.nome
    }
}

/// Dois arquivos de mesmo nome acrescentados a uma lista ficam ambos, no fim e
/// na ordem; tirar por esse nome tira os dois, e deixa o que tiraria da lista
/// antes deles.
pub proof fn lemma_duplicados(arquivos: Seq<Arquivo>, a: Arquivo, b: Arquivo)
    requires
        a.nome@ == b.nome@,
    ensures
        arquivos.push(a).push(b).len() == arquivos.len() + 2,
        arquivos.push(a).push(b)[arquivos.len() as int] == a,
        arquivos.push(a).push(b)[arquivos.len() + 1int] == b,
        sem_nome(arquivos.push(a).push(b), a.nome@) == sem_nome(arquivos, a.nome@),
{
    reveal(Seq::filter);
    let s = arquivos.push(a).push(b);
    assert(s.drop_last() =~= arquivos.push(a));
    assert(arquivos.push(a).drop_last() =~= arquivos);
    let p = fica::<Arquivo>(a.nome@);
    assert(s.last() == b && !p(b));
    assert(s.filter(p) == arquivos.push(a).filter(p));
    assert(arquivos.push(a).last() == a && !p(a));
    assert(arquivos.push(a).filter(p) == arquivos.filter(p));
}

impl Arquivo {
    /// Cria um arquivo com a permissão padrão, só escrita, para dono, grupo e outros.
    pub fn new(nome: String, tamanho: u64, usuario: Usuario, grupo: Grupo) -> (r: Arquivo)
        ensures
            r.nome == nome,
            r.tamanho == tamanho,
            r.permissoes == (permissao_padrao(), permissao_padrao(), permissao_padrao()),
            r.usuario == usuario,
            r.grupo == grupo,
    {
        let permissoes = (
            Permissao::new(false, true, false),
            Permissao::new(false, true, false),
            Permissao::new(false, true, false),
        );
        Arquivo { nome, tamanho, permissoes, usuario, grupo }
    }

    /// Troca as três permissões de uma vez.
    pub fn alterar_permissao(&mut self, nova_permissao: (Permissao, Permissao, Permissao))
        ensures
            final(self).permissoes == nova_permissao,
            final(self).nome == old(self).nome,
            final(self).tamanho == old(self).tamanho,
            final(self).usuario == old(self).usuario,
            final(self).grupo == old(self).grupo,
    {
        self.permissoes = nova_permissao;
    }

    /// Nome, tamanho, permissões nas formas octal e simbólica, uid e gid do arquivo.
    pub fn stat(&self) -> (r: InfoArquivo)
        ensures
            r.nome@ == self.nome@,
            r.tamanho == self.tamanho,
            r.octal@ == octal_total_de(self.permissoes.0, self.permissoes.1, self.permissoes.2),
            r.rwx@ == rwx_total_de(self.permissoes.0, self.permissoes.1, self.permissoes.2),
            r.uid == self.usuario.uid,
            r.gid == self.grupo.gid,
    {
        let (octal, rwx) = Permissao::octal_e_rwx_total(
            &self.permissoes.0,
            &self.permissoes.1,
            &self.permissoes.2,
        );
        InfoArquivo {
            nome: self.nome.clone(),
            tamanho: self.tamanho,
            octal,
            rwx,
            uid: self.usuario.uid,
            gid: self.grupo.gid,
        }
    }
}

impl Diretorio {
    /// Cria um diretório vazio.
    pub fn new(nome: String, permissoes: (Permissao, Permissao, Permissao), dono: Usuario) -> (r:
        Diretorio)
        ensures
            r.nome == nome,
            r.arquivos@.len() == 0,
            r.permissoes == permissoes,
            r.dono == dono,
    {
        Diretorio { nome, arquivos: Vec::new(), permissoes, dono }
    }

    /// Acrescenta um arquivo ao fim, mesmo que já haja um de mesmo nome.
    pub fn adiciona_arquivo(&mut self, arquivo: Arquivo)
        ensures
            final(self).arquivos@ == old(self).arquivos@.push(arquivo),
            final(self).nome == old(self).nome,
            final(self).permissoes == old(self).permissoes,
            final(self).dono == old(self).dono,
    {
        self.arquivos.push(arquivo);
    }

    /// Remove todos os arquivos de nome `nome_arquivo`; os outros ficam, na mesma
    /// ordem. Sem arquivo desse nome, nada muda.
    pub fn remove_arquivo(&mut self, nome_arquivo: &str)
        ensures
            final(self).arquivos@ == sem_nome(old(self).arquivos@, nome_arquivo@),
            final(self).nome == old(self).nome,
            final(self).permissoes == old(self).permissoes,
            final(self).dono == old(self).dono,
    {
        remove_por_nome(&mut self.arquivos, nome_arquivo);
    }

    /// `Vazio` se o diretório não tem arquivos; senão os pares (nome, tamanho)
    /// dos arquivos, na ordem em que entraram.
    pub fn listar_conteudo(&self) -> (r: Conteudo)
        ensures
            (r is Vazio) == (self.arquivos@.len() == 0),
            r matches Conteudo::Arquivos(v) ==> vista_tamanhos(v@) == registros_de_arquivos(
                self.arquivos@,
            ) && v@.len() == self.arquivos@.len() && forall|i: int|
                0 <= i < v@.len() ==> (#[trigger] v@[i]).0@ == self.arquivos@[i].nome@ && v@[i].1
                    == self.arquivos@[i].tamanho,
    {
        if self.arquivos.is_empty() {
            return Conteudo::Vazio;
        }
        let mut r: Vec<(String, u64)> = Vec::new();
        let mut i: usize = 0;
        while i < self.arquivos.len()
            invariant
                i <= self.arquivos@.len(),
                vista_tamanhos(r@) == registros_de_arquivos(self.arquivos@.subrange(0, i as int)),
            decreases self.arquivos@.len() - i,
        {
            let a = &self.arquivos[i];
            let ghost r_antes = r@;
            r.push((a.nome.clone(), a.tamanho));
            assert(vista_tamanhos(r@) =~= vista_tamanhos(r_antes).push((a.nome@, a.tamanho)));
            assert(self.arquivos@.subrange(0, i + 1) =~= self.arquivos@.subrange(0, i as int).push(
                self.arquivos@[i as int],
            ));
            assert(registros_de_arquivos(self.arquivos@.subrange(0, i + 1)) =~= registros_de_arquivos(
                self.arquivos@.subrange(0, i as int),
            ).push((a.nome@, a.tamanho)));
            i = i + 1;
        }
        assert(self.arquivos@.subrange(0, i as int) =~= self.arquivos@);
        assert forall|k: int| 0 <= k < r@.len() implies (#[trigger] r@[k]).0@
            == self.arquivos@[k].nome@ && r@[k].1 == self.arquivos@[k].tamanho by {
            assert(vista_tamanhos(r@)[k] == (r@[k].0@, r@[k].1));
        }
        Conteudo::Arquivos(r)
    }
}

} // verus!
