use vstd::prelude::*;

verus! {

/// Um trio de permissões: leitura, escrita e execução.
#[derive(Clone, Copy, Debug, PartialEq, Eq, Structural)]
pub struct Permissao {
    pub leitura: bool,
    pub escrita: bool,
    pub execucao: bool,
}

/// O dígito octal de um trio: 4 para leitura, 2 para escrita, 1 para execução.
pub open spec fn octal_de(p: Permissao) -> nat {
    (if p.leitura { 4nat } else { 0nat }) + (if p.escrita { 2nat } else { 0nat }) + (if p.execucao {
        1nat
    } else {
        0nat
    })
}

/// A forma simbólica de um trio: `r`, `w`, `x` ou `-` em cada posição.
pub open spec fn rwx_de(p: Permissao) -> Seq<char> {
    seq![
        if p.leitura { 'r' } else { '-' },
        if p.escrita { 'w' } else { '-' },
        if p.execucao { 'x' } else { '-' },
    ]
}

/// O caractere ASCII de um dígito decimal.
pub open spec fn digito(d: nat) -> char {
    ('0' as u8 + d) as char
}

/// Os três dígitos octais de dono, grupo e outros, sem separador.
pub open spec fn octal_total_de(dono: Permissao, grupo: Permissao, outros: Permissao) -> Seq<char> {
    seq![digito(octal_de(dono)), digito(octal_de(grupo)), digito(octal_de(outros))]
}

/// As três formas simbólicas de dono, grupo e outros, separadas por `|`.
pub open spec fn rwx_total_de(dono: Permissao, grupo: Permissao, outros: Permissao) -> Seq<char> {
    rwx_de(dono) + seq!['|'] + rwx_de(grupo) + seq!['|'] + rwx_de(outros)
}

/// Trios diferentes têm dígitos octais diferentes, e todo dígito fica entre 0 e 7.
pub proof fn lemma_octal_injetivo(p: Permissao, q: Permissao)
    ensures
        octal_de(p) <= 7,
        octal_de(p) == octal_de(q) <==> p == q,
{
}

/// A forma octal e a simbólica de um trio dizem o mesmo, bit a bit: o bit 4 do
/// dígito é o `r`, o bit 2 é o `w` e o bit 1 é o `x`.
pub proof fn lemma_octal_e_rwx_concordam(p: Permissao)
    ensures
        rwx_de(p).len() == 3,
        (rwx_de(p)[0] == 'r') <==> octal_de(p) / 4 == 1,
        (rwx_de(p)[1] == 'w') <==> (octal_de(p) / 2) % 2 == 1,
        (rwx_de(p)[2] == 'x') <==> octal_de(p) % 2 == 1,
        rwx_de(p)[0] == 'r' || rwx_de(p)[0] == '-',
        rwx_de(p)[1] == 'w' || rwx_de(p)[1] == '-',
        rwx_de(p)[2] == 'x' || rwx_de(p)[2] == '-',
{
}

/// Acrescenta a `s` o caractere `sim` ou o `nao`, conforme `bit`.
fn acrescenta_marca(s: &mut String, bit: bool, sim: &str, nao: &str)
    requires
        sim@.len() == 1,
        nao@.len() == 1,
    ensures
        final(s)@ == old(s)@.push(if bit { sim@[0] } else { nao@[0] }),
{
    let ghost antes = s@;
    if bit {
        s.append(sim);
        assert(s@ =~= antes.push(sim@[0]));
    } else {
        s.append(nao);
        assert(s@ =~= antes.push(nao@[0]));
    }
}

/// Acrescenta a `s` o dígito decimal `d`.
fn acrescenta_digito(s: &mut String, d: u8)
    requires
        d <= 7,
    ensures
        final(s)@ == old(s)@.push(digito(d as nat)),
{
    let ghost antes = s@;
    let t: &str = if d == 0 {
        "0"
    } else if d == 1 {
        "1"
    } else if d == 2 {
        "2"
    } else if d == 3 {
        "3"
    } else if d == 4 {
        "4"
    } else if d == 5 {
        "5"
    } else if d == 6 {
        "6"
    } else {
        "7"
    };
    proof {
        reveal_strlit("0");
        reveal_strlit("1");
        reveal_strlit("2");
        reveal_strlit("3");
        reveal_strlit("4");
        reveal_strlit("5");
        reveal_strlit("6");
        reveal_strlit("7");
    }
    s.append(t);
    assert(s@ =~= antes.push(digito(d as nat)));
}

impl Permissao {
    /// Cria um trio com as três permissões dadas.
    pub fn new(leitura: bool, escrita: bool, execucao: bool) -> (r: Permissao)
        ensures
            r.leitura == leitura,
            r.escrita == escrita,
            r.execucao == execucao,
    {
        Permissao { leitura, escrita, execucao }
    }

    /// O dígito octal do trio, `4·r + 2·w + x`.
    pub fn octal(&self) -> (r: u8)
        ensures
            r as nat == octal_de(*self),
            r <= 7,
    {
        let a: u8 = if self.leitura { 4 } else { 0 };
        let b: u8 = if self.escrita { 2 } else { 0 };
        let c: u8 = if self.execucao { 1 } else { 0 };
        a + b + c
    }

    /// A forma simbólica do trio, como `"r-x"`.
    pub fn rwx(&self) -> (r: String)
        ensures
            r@ == rwx_de(*self),
    {
        proof {
            reveal_strlit("r");
            reveal_strlit("w");
            reveal_strlit("x");
            reveal_strlit("-");
        }
        let mut s = String::new();
        acrescenta_marca(&mut s, self.leitura, "r", "-");
        acrescenta_marca(&mut s, self.escrita, "w", "-");
        acrescenta_marca(&mut s, self.execucao, "x", "-");
        assert(s@ =~= rwx_de(*self));
        s
    }

    /// As formas octal (como `"754"`) e simbólica (como `"rwx|r-x|r--"`) das
    /// permissões de dono, grupo e outros.
    pub fn octal_e_rwx_total(dono: &Permissao, grupo: &Permissao, outros: &Permissao) -> (r: (
        String,
        String,
    ))
        ensures
            r.0@ == octal_total_de(*dono, *grupo, *outros),
            r.1@ == rwx_total_de(*dono, *grupo, *outros),
    {
        let mut octal = String::new();
        acrescenta_digito(&mut octal, dono.octal());
        acrescenta_digito(&mut octal, grupo.octal());
        acrescenta_digito(&mut octal, outros.octal());
        assert(octal@ =~= octal_total_de(*dono, *grupo, *outros));

        proof {
            reveal_strlit("|");
        }
        let mut rwx = dono.rwx();
        rwx.append("|");
        let g = grupo.rwx();
        rwx.append(g.as_str());
        rwx.append("|");
        let o = outros.rwx();
        rwx.append(o.as_str());
        assert(rwx@ =~= rwx_total_de(*dono, *grupo, *outros));
        (octal, rwx)
    }
}

} // verus!
