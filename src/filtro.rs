use vstd::prelude::*;

verus! {

/// Um valor que tem nome: usuários, grupos e arquivos.
pub trait Nomeado {
    /// O nome do valor.
    spec fn nome_de(&self) -> Seq<char>;

    /// O nome do valor, para comparar.
    fn nome_ref(&self) -> (r: &String)
        ensures
            r@ == self.nome_de(),
    ;
}

/// Vale dos valores cujo nome não é `nome`.
pub open spec fn fica<T: Nomeado>(nome: Seq<char>) -> spec_fn(T) -> bool {
    |x: T| x.nome_de() != nome
}

/// Os valores de `s` cujo nome não é `nome`, na mesma ordem.
pub open spec fn sem_nome<T: Nomeado>(s: Seq<T>, nome: Seq<char>) -> Seq<T> {
    s.filter(fica(nome))
}

/// Tira de `v` todos os valores de nome `nome`; os outros ficam, na mesma ordem.
pub fn remove_por_nome<T: Nomeado>(v: &mut Vec<T>, nome: &str)
    ensures
        final(v)@ == sem_nome(old(v)@, nome@),
{
    let alvo = nome.to_owned();
    let ghost p = fica::<T>(nome@);
    let ghost antes = v@;
    let ghost mut j: int = 0;
    let mut i: usize = 0;
    while i < v.len()
        invariant
            antes == old(v)@,
            p == fica::<T>(nome@),
            alvo@ == nome@,
            0 <= i <= j <= antes.len(),
            v@.len() == i + (antes.len() - j),
            v@.subrange(0, i as int) == antes.subrange(0, j).filter(p),
            v@.subrange(i as int, v@.len() as int) == antes.subrange(j, antes.len() as int),
        decreases v@.len() - i,
    {
        let ghost atual = v@;
        proof {
            lemma_cauda(atual, i as int, antes, j);
            lemma_filtra_prefixo(antes, p, j);
        }
        if *v[i].nome_ref() == alvo {
            v.remove(i);
            assert(v@.subrange(0, i as int) =~= atual.subrange(0, i as int));
            assert(v@.subrange(i as int, v@.len() as int) =~= atual.subrange(
                i + 1,
                atual.len() as int,
            ));
        } else {
            assert(atual.subrange(0, i + 1) =~= atual.subrange(0, i as int).push(atual[i as int]));
            i = i + 1;
        }
        proof {
            j = j + 1;
        }
    }
    assert(v@ =~= v@.subrange(0, i as int));
    assert(antes.subrange(0, j) =~= antes);
}

/// Tirar por um nome que nenhum valor de `s` tem deixa `s` como estava.
pub proof fn lemma_sem_nome_ausente<T: Nomeado>(s: Seq<T>, nome: Seq<char>)
    requires
        forall|i: int| 0 <= i < s.len() ==> (#[trigger] s[i]).nome_de() != nome,
    ensures
        sem_nome(s, nome) == s,
{
    lemma_filtra_tudo(s, fica::<T>(nome));
}

/// Acrescentar a `s` um valor cujo nome nenhum valor de `s` tem e depois tirar
/// por esse nome devolve `s`.
pub proof fn lemma_acrescenta_e_tira<T: Nomeado>(s: Seq<T>, x: T)
    requires
        forall|i: int| 0 <= i < s.len() ==> (#[trigger] s[i]).nome_de() != x.nome_de(),
    ensures
        sem_nome(s.push(x), x.nome_de()) == s,
{
    reveal(Seq::filter);
    assert(s.push(x).drop_last() =~= s);
    lemma_filtra_tudo(s, fica::<T>(x.nome_de()));
}

/// Depois de tirar por um nome, nenhum valor que fica tem esse nome.
pub proof fn lemma_sem_nome_some<T: Nomeado>(s: Seq<T>, nome: Seq<char>)
    ensures
        forall|i: int|
            0 <= i < sem_nome(s, nome).len() ==> (#[trigger] sem_nome(s, nome)[i]).nome_de()
                != nome,
{
    let p = fica::<T>(nome);
    assert forall|i: int| 0 <= i < s.filter(p).len() implies p(#[trigger] s.filter(p)[i]) by {
        s.lemma_filter_pred(p, i);
    }
}

/// Filtrar um prefixo um elemento mais longo é filtrar o prefixo menor e, se o
/// novo elemento passa no filtro, acrescentá-lo ao fim.
pub proof fn lemma_filtra_prefixo<A>(s: Seq<A>, p: spec_fn(A) -> bool, j: int)
    requires
        0 <= j < s.len(),
    ensures
        s.subrange(0, j + 1).filter(p) == (if p(s[j]) {
            s.subrange(0, j).filter(p).push(s[j])
        } else {
            s.subrange(0, j).filter(p)
        }),
{
    reveal(Seq::filter);
    assert(s.subrange(0, j + 1).drop_last() =~= s.subrange(0, j));
}

/// Se duas sequências coincidem de `i` e de `j` até o fim, coincidem também um
/// passo adiante, e os elementos em `i` e em `j` são iguais.
pub proof fn lemma_cauda<A>(a: Seq<A>, i: int, b: Seq<A>, j: int)
    requires
        0 <= i < a.len(),
        0 <= j <= b.len(),
        a.subrange(i, a.len() as int) == b.subrange(j, b.len() as int),
    ensures
        j < b.len(),
        a[i] == b[j],
        a.subrange(i + 1, a.len() as int) == b.subrange(j + 1, b.len() as int),
{
    assert(a.subrange(i, a.len() as int).len() == a.len() - i);
    assert(b.subrange(j, b.len() as int).len() == b.len() - j);
    assert(a.subrange(i, a.len() as int)[0] == a[i]);
    assert forall|k: int| 0 <= k < a.len() - (i + 1) implies #[trigger] a.subrange(
        i + 1,
        a.len() as int,
    )[k] == b.subrange(j + 1, b.len() as int)[k] by {
        assert(a.subrange(i, a.len() as int)[k + 1] == b.subrange(j, b.len() as int)[k + 1]);
        assert(b.subrange(j, b.len() as int)[k + 1] == b[j + 1 + k]);
    }
    assert(a.subrange(i + 1, a.len() as int) =~= b.subrange(j + 1, b.len() as int));
}

/// Filtrar uma sequência em que todos os elementos passam no filtro a deixa igual.
pub proof fn lemma_filtra_tudo<A>(s: Seq<A>, p: spec_fn(A) -> bool)
    requires
        forall|i: int| 0 <= i < s.len() ==> p(#[trigger] s[i]),
    ensures
        s.filter(p) == s,
    decreases s.len(),
{
    reveal(Seq::filter);
    if s.len() > 0 {
        lemma_filtra_tudo(s.drop_last(), p);
        assert(s.drop_last().push(s.last()) =~= s);
    }
}

} // verus!
