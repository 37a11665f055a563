//! The signature catalog: the constant tables that are searched for.
use vstd::prelude::*;

use itertools::Itertools;

use crate::endian::{ConstTable, EndianWrapper};

mod crypto;
mod hash;
mod other;

verus! {

/// A named constant table whose presence in data points to an algorithm.
pub struct Pattern {
    /// The algorithm; several entries may share one.
    pub algorithm: &'static str,
    /// A human description of the table.
    pub desc: &'static str,
    /// The table itself.
    pub bytes: EndianWrapper,
    /// The name under which the table is known in source code.
    pub varname: &'static str,
}

/// The algorithm names of a catalog, in catalog order.
pub open spec fn algorithms_of(catalog: Seq<Pattern>) -> Seq<Seq<char>> {
    catalog.map_values(|p: Pattern| p.algorithm@)
}

/// The table names of a catalog, in catalog order.
pub open spec fn varnames_of(catalog: Seq<Pattern>) -> Seq<Seq<char>> {
    catalog.map_values(|p: Pattern| p.varname@)
}

/// The descriptions of a catalog, in catalog order.
pub open spec fn descs_of(catalog: Seq<Pattern>) -> Seq<Seq<char>> {
    catalog.map_values(|p: Pattern| p.desc@)
}

/// The element width and element count of each table, in catalog order.
pub open spec fn shapes_of(catalog: Seq<Pattern>) -> Seq<(nat, nat)> {
    catalog.map_values(|p: Pattern| (p.bytes.0.width(), p.bytes.0.values().len()))
}

/// The algorithms of the catalog, entry by entry.
pub open spec fn catalog_algorithms() -> Seq<Seq<char>> {
    seq![
        "SHA-256"@,
        "SHA-512"@,
        "MD5"@,
        "CRC32"@,
        "Keccak"@,
        "Blowfish"@,
        "Blowfish"@,
        "Blowfish"@,
        "Blowfish"@,
        "Blowfish"@,
        "DES"@,
        "DES"@,
        "DES"@,
        "DES"@,
        "DES"@,
        "DES"@,
        "DES"@,
        "DES"@,
        "DES"@,
        "DES"@,
        "DES"@,
        "DES"@,
        "DES"@,
        "DES"@,
        "Rijndael"@,
        "Rijndael"@,
        "Rijndael"@,
        "Rijndael"@,
        "Rijndael"@,
        "Rijndael"@,
        "Rijndael"@,
        "Rijndael"@,
        "Rijndael"@,
        "Rijndael"@,
        "PKCS MD2"@,
        "PKCS MD5"@,
        "PKCS RIPEMD160"@,
        "PKCS Tiger"@,
        "PKCS SHA256"@,
        "PKCS SHA384"@,
        "PKCS SHA512"@
    ]
}

/// The table names of the catalog, entry by entry.
pub open spec fn catalog_varnames() -> Seq<Seq<char>> {
    seq![
        "hash::SHA256_CONSTS"@,
        "hash::SHA512_CONSTS"@,
        "hash::MD5_CONSTS"@,
        "hash::CRC32_CONSTS"@,
        "hash::KECCAK_CONSTS"@,
        "crypto::BLOWFISH_P_PERM"@,
        "crypto::BLOWFISH_S_PERM_0"@,
        "crypto::BLOWFISH_S_PERM_1"@,
        "crypto::BLOWFISH_S_PERM_2"@,
        "crypto::BLOWFISH_S_PERM_3"@,
        "crypto::DES_IP"@,
        "crypto::DES_FP"@,
        "crypto::DES_PC1"@,
        "crypto::DES_PC2"@,
        "crypto::DES_E"@,
        "crypto::DES_P"@,
        "crypto::DES_SBOX_0"@,
        "crypto::DES_SBOX_1"@,
        "crypto::DES_SBOX_2"@,
        "crypto::DES_SBOX_3"@,
        "crypto::DES_SBOX_4"@,
        "crypto::DES_SBOX_5"@,
        "crypto::DES_SBOX_6"@,
        "crypto::DES_SBOX_7"@,
        "crypto::RIJNDAEL_TE0"@,
        "crypto::RIJNDAEL_TE1"@,
        "crypto::RIJNDAEL_TE2"@,
        "crypto::RIJNDAEL_TE3"@,
        "crypto::RIJNDAEL_TE4"@,
        "crypto::RIJNDAEL_TD0"@,
        "crypto::RIJNDAEL_TD1"@,
        "crypto::RIJNDAEL_TD2"@,
        "crypto::RIJNDAEL_TD3"@,
        "crypto::RIJNDAEL_TD4"@,
        "other::PKCS_DIGEST_MD2"@,
        "other::PKCS_DIGEST_MD5"@,
        "other::PKCS_DIGEST_RIPEMD160"@,
        "other::PKCS_DIGEST_TIGER"@,
        "other::PKCS_DIGEST_SHA256"@,
        "other::PKCS_DIGEST_SHA384"@,
        "other::PKCS_DIGEST_SHA512"@
    ]
}

/// The shapes of the catalog's tables, entry by entry.
pub open spec fn catalog_shapes() -> Seq<(nat, nat)> {
    seq![
        (4nat, 64nat),
        (8nat, 80nat),
        (4nat, 64nat),
        (4nat, 256nat),
        (8nat, 24nat),
        (4nat, 18nat),
        (4nat, 256nat),
        (4nat, 256nat),
        (4nat, 256nat),
        (4nat, 256nat),
        (1nat, 64nat),
        (1nat, 64nat),
        (1nat, 56nat),
        (1nat, 48nat),
        (1nat, 48nat),
        (1nat, 32nat),
        (1nat, 64nat),
        (1nat, 64nat),
        (1nat, 64nat),
        (1nat, 64nat),
        (1nat, 64nat),
        (1nat, 64nat),
        (1nat, 64nat),
        (1nat, 64nat),
        (4nat, 256nat),
        (4nat, 256nat),
        (4nat, 256nat),
        (4nat, 256nat),
        (4nat, 256nat),
        (4nat, 256nat),
        (4nat, 256nat),
        (4nat, 256nat),
        (4nat, 256nat),
        (4nat, 256nat),
        (1nat, 18nat),
        (1nat, 18nat),
        (1nat, 15nat),
        (1nat, 19nat),
        (1nat, 19nat),
        (1nat, 19nat),
        (1nat, 19nat)
    ]
}

fn entry(algorithm: &'static str, varname: &'static str, table: ConstTable) -> (r: Pattern)
    ensures
        r.algorithm == algorithm,
        r.desc == varname,
        r.varname == varname,
        r.bytes.0 == table,
{
    Pattern { algorithm, desc: varname, bytes: EndianWrapper(table), varname }
}

/// The catalog, in its fixed order: hash functions, then block ciphers, then
/// PKCS digest prefixes. Each entry is described by its table's name.
#[verifier::rlimit(50)]
pub fn get_patterns() -> (r: Vec<Pattern>)
    ensures
        r@.len() == 41,
        algorithms_of(r@) == catalog_algorithms(),
        varnames_of(r@) == catalog_varnames(),
        descs_of(r@) == catalog_varnames(),
        shapes_of(r@) == catalog_shapes(),
{
    let mut catalog: Vec<Pattern> = Vec::new();
    catalog.push(entry("SHA-256", "hash::SHA256_CONSTS", hash::sha256_consts()));
    catalog.push(entry("SHA-512", "hash::SHA512_CONSTS", hash::sha512_consts()));
    catalog.push(entry("MD5", "hash::MD5_CONSTS", hash::md5_consts()));
    catalog.push(entry("CRC32", "hash::CRC32_CONSTS", hash::crc32_consts()));
    catalog.push(entry("Keccak", "hash::KECCAK_CONSTS", hash::keccak_consts()));
    catalog.push(entry("Blowfish", "crypto::BLOWFISH_P_PERM", crypto::blowfish_p_perm()));
    catalog.push(entry("Blowfish", "crypto::BLOWFISH_S_PERM_0", crypto::blowfish_s_perm_0()));
    catalog.push(entry("Blowfish", "crypto::BLOWFISH_S_PERM_1", crypto::blowfish_s_perm_1()));
    catalog.push(entry("Blowfish", "crypto::BLOWFISH_S_PERM_2", crypto::blowfish_s_perm_2()));
    catalog.push(entry("Blowfish", "crypto::BLOWFISH_S_PERM_3", crypto::blowfish_s_perm_3()));
    catalog.push(entry("DES", "crypto::DES_IP", crypto::des_ip()));
    catalog.push(entry("DES", "crypto::DES_FP", crypto::des_fp()));
    catalog.push(entry("DES", "crypto::DES_PC1", crypto::des_pc1()));
    catalog.push(entry("DES", "crypto::DES_PC2", crypto::des_pc2()));
    catalog.push(entry("DES", "crypto::DES_E", crypto::des_e()));
    catalog.push(entry("DES", "crypto::DES_P", crypto::des_p()));
    catalog.push(entry("DES", "crypto::DES_SBOX_0", crypto::des_sbox_0()));
    catalog.push(entry("DES", "crypto::DES_SBOX_1", crypto::des_sbox_1()));
    catalog.push(entry("DES", "crypto::DES_SBOX_2", crypto::des_sbox_2()));
    catalog.push(entry("DES", "crypto::DES_SBOX_3", crypto::des_sbox_3()));
    catalog.push(entry("DES", "crypto::DES_SBOX_4", crypto::des_sbox_4()));
    catalog.push(entry("DES", "crypto::DES_SBOX_5", crypto::des_sbox_5()));
    catalog.push(entry("DES", "crypto::DES_SBOX_6", crypto::des_sbox_6()));
    catalog.push(entry("DES", "crypto::DES_SBOX_7", crypto::des_sbox_7()));
    catalog.push(entry("Rijndael", "crypto::RIJNDAEL_TE0", crypto::rijndael_te0()));
    catalog.push(entry("Rijndael", "crypto::RIJNDAEL_TE1", crypto::rijndael_te1()));
    catalog.push(entry("Rijndael", "crypto::RIJNDAEL_TE2", crypto::rijndael_te2()));
    catalog.push(entry("Rijndael", "crypto::RIJNDAEL_TE3", crypto::rijndael_te3()));
    catalog.push(entry("Rijndael", "crypto::RIJNDAEL_TE4", crypto::rijndael_te4()));
    catalog.push(entry("Rijndael", "crypto::RIJNDAEL_TD0", crypto::rijndael_td0()));
    catalog.push(entry("Rijndael", "crypto::RIJNDAEL_TD1", crypto::rijndael_td1()));
    catalog.push(entry("Rijndael", "crypto::RIJNDAEL_TD2", crypto::rijndael_td2()));
    catalog.push(entry("Rijndael", "crypto::RIJNDAEL_TD3", crypto::rijndael_td3()));
    catalog.push(entry("Rijndael", "crypto::RIJNDAEL_TD4", crypto::rijndael_td4()));
    catalog.push(entry("PKCS MD2", "other::PKCS_DIGEST_MD2", other::pkcs_digest_md2()));
    catalog.push(entry("PKCS MD5", "other::PKCS_DIGEST_MD5", other::pkcs_digest_md5()));
    catalog.push(entry("PKCS RIPEMD160", "other::PKCS_DIGEST_RIPEMD160", other::pkcs_digest_ripemd160()));
    catalog.push(entry("PKCS Tiger", "other::PKCS_DIGEST_TIGER", other::pkcs_digest_tiger()));
    catalog.push(entry("PKCS SHA256", "other::PKCS_DIGEST_SHA256", other::pkcs_digest_sha256()));
    catalog.push(entry("PKCS SHA384", "other::PKCS_DIGEST_SHA384", other::pkcs_digest_sha384()));
    catalog.push(entry("PKCS SHA512", "other::PKCS_DIGEST_SHA512", other::pkcs_digest_sha512()));
    assert(algorithms_of(catalog@) =~= catalog_algorithms());
    assert(varnames_of(catalog@) =~= catalog_varnames());
    assert(descs_of(catalog@) =~= catalog_varnames());
    assert(shapes_of(catalog@) =~= catalog_shapes());
    catalog
}

/// The text of each name, in order.
pub open spec fn name_views(names: Seq<&'static str>) -> Seq<Seq<char>> {
    names.map_values(|s: &'static str| s@)
}

/// `s` with every element after its first appearance left out.
pub open spec fn first_occurrences(s: Seq<Seq<char>>) -> Seq<Seq<char>>
    decreases s.len(),
{
    if s.len() == 0 {
        Seq::empty()
    } else if s.drop_last().contains(s.last()) {
        first_occurrences(s.drop_last())
    } else {
        first_occurrences(s.drop_last()).push(s.last())
    }
}

/// Relies on itertools' `Itertools::unique`: each distinct name once, at its
/// first appearance, in the order of the input.
#[verifier::external_body]
fn unique_names(names: Vec<&'static str>) -> (r: Vec<&'static str>)
    ensures
        name_views(r@) == first_occurrences(name_views(names@)),
{
    names.into_iter().unique().collect()
}

/// The distinct algorithms that `catalog` has tables for, each once, in the
/// order of their first entry.
pub fn algorithm_names(catalog: &Vec<Pattern>) -> (r: Vec<&'static str>)
    ensures
        name_views(r@) == first_occurrences(algorithms_of(catalog@)),
{
    let mut names: Vec<&'static str> = Vec::new();
    let mut i: usize = 0;
    while i < catalog.len()
        invariant
            i <= catalog@.len(),
            names@.len() == i,
            name_views(names@) =~= algorithms_of(catalog@.subrange(0, i as int)),
        decreases catalog.len() - i,
    {
        let ghost before = names@;
        names.push(catalog[i].algorithm);
        proof {
            let sub = catalog@.subrange(0, i + 1);
            assert(names@ == before.push(catalog@[i as int].algorithm));
            assert forall|j: int| 0 <= j < i + 1 implies name_views(names@)[j] == algorithms_of(sub)[j] by {
                assert(sub[j] == catalog@[j]);
                if j < i {
                    assert(name_views(before)[j] == algorithms_of(catalog@.subrange(0, i as int))[j]);
                    assert(catalog@.subrange(0, i as int)[j] == catalog@[j]);
                    assert(names@[j] == before[j]);
                } else {
                    assert(names@[j] == catalog@[j].algorithm);
                }
            }
            assert(name_views(names@) =~= algorithms_of(sub));
        }
        i = i + 1;
    }
    assert(catalog@.subrange(0, i as int) =~= catalog@);
    unique_names(names)
}

} // verus!
