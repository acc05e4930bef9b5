//! Reading certificates and private keys from PEM text.
use vstd::prelude::*;
use rustls_pemfile::Item;

verus! {

/// The kind of a PEM section.
#[derive(Debug, Clone, Copy, PartialEq, Eq, Structural)]
pub enum PemKind {
    Certificate,
    RsaKey,
    Pkcs8Key,
    EcKey,
    Other,
}

/// The next section that `rustls_pemfile::read_one` reads from `rest`: `None`
/// where it reports an error, `Some(None)` where no section is left, else the
/// section's kind, its DER bytes, and how many bytes of `rest` remain after it.
pub uninterp spec fn pem_next(rest: Seq<u8>) -> Option<Option<(PemKind, Seq<u8>, nat)>>;

/// The certificates that `rustls_pemfile::certs` reads from `pem`, or `None`
/// where it reports an error.
pub uninterp spec fn pem_certs(pem: Seq<u8>) -> Option<Seq<Seq<u8>>>;

/// The value of what `read_pem_item` gives.
pub open spec fn item_view(r: Option<Option<(PemKind, Vec<u8>, usize)>>) -> Option<
    Option<(PemKind, Seq<u8>, nat)>,
> {
    match r {
        None => None,
        Some(None) => Some(None),
        Some(Some((kind, der, left))) => Some(Some((kind, der@, left as nat))),
    }
}

/// The value of a list of DER blocks.
pub open spec fn blocks_view(v: Seq<Vec<u8>>) -> Seq<Seq<u8>> {
    v.map_values(|b: Vec<u8>| b@)
}

/// Calls `rustls_pemfile::read_one` on the bytes `rest` and hands out the kind
/// and DER bytes of the section read, with the length of what is left unread.
/// The result is named `pem_next(rest)`. It is stated that a section read
/// leaves fewer bytes than there were: `read_one` returns a section only after
/// reading its `-----BEGIN` line.
#[verifier::external_body]
fn read_pem_item(rest: &[u8]) -> (r: Option<Option<(PemKind, Vec<u8>, usize)>>)
    ensures
        item_view(r) == pem_next(rest@),
        r matches Some(Some((_, _, left))) ==> left < rest@.len(),
{
    let mut rd: &[u8] = rest;
    let (kind, der) = match rustls_pemfile::read_one(&mut rd) {
        Ok(Some(Item::X509Certificate(d))) => (PemKind::Certificate, d),
        Ok(Some(Item::RSAKey(d))) => (PemKind::RsaKey, d),
        Ok(Some(Item::PKCS8Key(d))) => (PemKind::Pkcs8Key, d),
        Ok(Some(Item::ECKey(d))) => (PemKind::EcKey, d),
        Ok(Some(_)) => (PemKind::Other, Vec::new()),
        Ok(None) => return Some(None),
        Err(_) => return None,
    };
    Some(Some((kind, der, rd.len())))
}

/// Calls `rustls_pemfile::certs` on the bytes `pem`. The result is named
/// `pem_certs(pem)`; that it is the DER of the certificate sections in order is
/// rustls-pemfile's and is not restated here.
#[verifier::external_body]
fn read_pem_certs(pem: &[u8]) -> (r: Option<Vec<Vec<u8>>>)
    ensures
        match r {
            Some(v) => pem_certs(pem@) == Some(blocks_view(v@)),
            None => pem_certs(pem@) is None,
        },
{
    let mut rd: &[u8] = pem;
    rustls_pemfile::certs(&mut rd).ok()
}

/// Whether sections of `kind` hold a private key.
pub open spec fn is_key_kind(kind: PemKind) -> bool {
    kind == PemKind::RsaKey || kind == PemKind::Pkcs8Key || kind == PemKind::EcKey
}

/// The first private key (RSA, PKCS#8 or EC) among the sections of `pem`:
/// `Ok(None)` where the sections run out first, `Err(())` where reading a
/// section fails first.
pub open spec fn first_private_key(pem: Seq<u8>) -> Result<Option<Seq<u8>>, ()>
    decreases pem.len(),
{
    match pem_next(pem) {
        None => Err(()),
        Some(None) => Ok(None),
        Some(Some((kind, der, left))) => if is_key_kind(kind) {
            Ok(Some(der))
        } else if left < pem.len() {
            first_private_key(pem.subrange(pem.len() - left, pem.len() as int))
        } else {
            Err(())
        },
    }
}

/// The value of a key search's result.
pub open spec fn key_view(r: Result<Option<Vec<u8>>, ()>) -> Result<Option<Seq<u8>>, ()> {
    match r {
        Ok(Some(k)) => Ok(Some(k@)),
        Ok(None) => Ok(None),
        Err(()) => Err(()),
    }
}

/// The DER bytes of the first private key (RSA, PKCS#8 or EC) in the PEM text
/// `pem`, skipping other sections.
pub fn private_key_der(pem: &[u8]) -> (r: Result<Option<Vec<u8>>, ()>)
    ensures
        key_view(r) == first_private_key(pem@),
        pem_next(pem@) matches Some(Some(section)) && (section.0 == PemKind::RsaKey || section.0
            == PemKind::Pkcs8Key || section.0 == PemKind::EcKey) ==> key_view(r) == Ok::<
            Option<Seq<u8>>,
            (),
        >(Some((pem_next(pem@)->0->0).1)),
{
    let mut rest: &[u8] = pem;
    loop
        invariant
            first_private_key(rest@) == first_private_key(pem@),
        decreases rest@.len(),
    {
        let item = read_pem_item(rest);
        match item {
            None => {
                return Err(());
            },
            Some(None) => {
                return Ok(None);
            },
            Some(Some((kind, der, left))) => {
                match kind {
                    PemKind::RsaKey | PemKind::Pkcs8Key | PemKind::EcKey => {
                        return Ok(Some(der));
                    },
                    _ => {},
                }
                let (_, tail) = rest.split_at(rest.len() - left);
                proof {
                    assert(tail@ =~= rest@.subrange(rest@.len() - left, rest@.len() as int));
                }
                rest = tail;
            },
        }
    }
}

/// The DER bytes of the certificates in the PEM text `pem`, or `None` where
/// reading it fails.
pub fn certs_der(pem: &[u8]) -> (r: Option<Vec<Vec<u8>>>)
    ensures
        match r {
            Some(v) => pem_certs(pem@) == Some(blocks_view(v@)),
            None => pem_certs(pem@) is None,
        },
{
    read_pem_certs(pem)
}

} // verus!
