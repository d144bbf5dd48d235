//! Permissões no estilo Unix: usuários, grupos, arquivos e diretórios, com
//! as permissões de leitura, escrita e execução e suas formas octal e simbólica.

mod arquivo;
mod filtro;
mod identidade;
mod permissao;

pub use arquivo::{Arquivo, InfoArquivo, Diretorio, Conteudo, permissao_padrao};
pub use arquivo::{registros_de_arquivos, vista_tamanhos, lemma_duplicados};
pub use filtro::{Nomeado, fica, sem_nome, lemma_sem_nome_ausente, lemma_sem_nome_some};
pub use filtro::lemma_acrescenta_e_tira;
pub use identidade::{Usuario, Grupo, registros_de_grupos, registros_de_usuarios, vista_registros};
pub use permissao::{Permissao, digito, octal_de, rwx_de, octal_total_de, rwx_total_de};
pub use permissao::{lemma_octal_injetivo, lemma_octal_e_rwx_concordam};
