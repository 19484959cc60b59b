//! Writing keys.
use vstd::pervasive::unreached;
use vstd::prelude::*;
use vstd::utf8::decode_utf8;
use vstd::utf8::valid_utf8;
use crate::error::generic_error;
use crate::error::generic_error_view;
use crate::error::result_view;
use crate::error::type_error;
use crate::error::type_error_view;
use crate::error::AnyError;
use crate::error::ErrorView;
use crate::keys::ec::ec_pkcs8;
use crate::keys::ec::ec_point;
use crate::keys::ec::ec_public;
use crate::keys::ec::ec_sec1;
use crate::keys::import::has_whole_key;
use crate::keys::import::private_key_from;
use crate::keys::import::private_key_of_info;
use crate::keys::import::public_key_from;
use crate::keys::import::public_key_of_spki;
use crate::keys::import::readable_public_key;
use crate::keys::outside::derive_ed25519_public;
use crate::keys::outside::derive_x25519_public;
use crate::keys::outside::dsa_private_pkcs8;
use crate::keys::outside::dsa_public_spki;
use crate::keys::outside::ed25519_public;
use crate::keys::outside::known_label;
use crate::keys::outside::pem_text;
use crate::keys::outside::pkcs8_der;
use crate::keys::outside::private_key_info;
use crate::keys::outside::public_pem;
use crate::keys::outside::reads_as_pkcs8;
use crate::keys::outside::rsa_private_key;
use crate::keys::outside::rsa_private_pkcs1;
use crate::keys::outside::rsa_private_pkcs8;
use crate::keys::outside::rsa_public_key;
use crate::keys::outside::rsa_public_pkcs1;
use crate::keys::outside::rsa_public_spki;
use crate::keys::outside::secret_pem;
use crate::keys::outside::spki;
use crate::keys::outside::spki_der;
use crate::keys::outside::write_dsa_private_pkcs8;
use crate::keys::outside::write_dsa_public_spki;
use crate::keys::outside::write_pem;
use crate::keys::outside::write_pkcs8;
use crate::keys::outside::write_rsa_private_pkcs1;
use crate::keys::outside::write_rsa_private_pkcs8;
use crate::keys::outside::write_rsa_public_pkcs1;
use crate::keys::outside::write_rsa_public_spki;
use crate::keys::outside::write_spki;
use crate::keys::outside::x25519_public;
use crate::keys::types::curve_oid;
use crate::keys::types::lemma_curve_oids_differ;
use crate::keys::types::lemma_key_oids_differ;
use crate::keys::types::opt_bytes;
use crate::keys::types::AsymmetricPrivateKey;
use crate::keys::types::AsymmetricPublicKey;
use crate::keys::types::EcPrivateKey;
use crate::keys::types::EcPublicKey;
use crate::keys::types::NamedCurve;
use crate::keys::types::PrivateKeyView;
use crate::keys::types::PublicKeyView;
use crate::keys::types::DH_KEY_AGREEMENT_OID;
use crate::keys::types::ED25519_OID;
use crate::keys::types::EC_OID;
use crate::keys::types::X25519_OID;
use crate::text::concat2;
use crate::text::str_eq;

verus! {

/// What was written, or a `TypeError` with a message where writing failed.
pub open spec fn written_or(der: Option<Seq<u8>>, message: Seq<char>) -> Result<
    Seq<u8>,
    ErrorView,
> {
    match der {
        Some(der) => Ok(der),
        None => Err(type_error_view(message)),
    }
}

/// What was written, or a `TypeError` with a message where writing failed.
fn or_invalid(der: Option<Vec<u8>>, message: &str) -> (r: Result<Vec<u8>, AnyError>)
    ensures
        result_view(r) == written_or(opt_bytes(der), message@),
{
    match der {
        Some(der) => Ok(der),
        None => Err(type_error(message)),
    }
}

/// A public key in a SubjectPublicKeyInfo structure.
pub open spec fn public_spki(key: PublicKeyView) -> Result<Seq<u8>, ErrorView> {
    match key {
        PublicKeyView::Rsa(key) => written_or(rsa_public_spki(key), "invalid RSA public key"@),
        PublicKeyView::RsaPss(_) => Err(
            generic_error_view("exporting RSA-PSS public key as SPKI is not supported yet"@),
        ),
        PublicKeyView::Dsa(key) => written_or(dsa_public_spki(key), "invalid DSA public key"@),
        PublicKeyView::Ec(key) => written_or(
            spki_der(EC_OID@, Some(curve_oid(key.curve)), key.bytes),
            "invalid EC public key"@,
        ),
        PublicKeyView::X25519(key) => written_or(
            spki_der(X25519_OID@, None, key),
            "invalid X25519 public key"@,
        ),
        PublicKeyView::Ed25519(key) => written_or(
            spki_der(ED25519_OID@, None, key),
            "invalid Ed25519 public key"@,
        ),
        PublicKeyView::Dh(key) => written_or(
            spki_der(DH_KEY_AGREEMENT_OID@, None, key),
            "invalid DH public key"@,
        ),
    }
}

/// A public key in DER of a given type.
pub open spec fn public_der(key: PublicKeyView, typ: Seq<char>) -> Result<Seq<u8>, ErrorView> {
    if typ == "pkcs1"@ {
        match key {
            PublicKeyView::Rsa(key) => written_or(rsa_public_pkcs1(key), "invalid RSA public key"@),
            _ => Err(
                type_error_view("exporting non-RSA public key as PKCS#1 is not supported"@),
            ),
        }
    } else if typ == "spki"@ {
        public_spki(key)
    } else {
        Err(type_error_view("unsupported key type: "@ + typ))
    }
}

/// A private key in a PKCS#8 structure.
pub open spec fn private_pkcs8(key: PrivateKeyView) -> Result<Seq<u8>, ErrorView> {
    match key {
        PrivateKeyView::Rsa(key) => written_or(rsa_private_pkcs8(key), "invalid RSA private key"@),
        PrivateKeyView::RsaPss(_) => Err(
            generic_error_view("exporting RSA-PSS private key as PKCS#8 is not supported yet"@),
        ),
        PrivateKeyView::Dsa(key) => written_or(dsa_private_pkcs8(key), "invalid DSA private key"@),
        PrivateKeyView::Ec(key) => written_or(ec_pkcs8(key), "invalid EC private key"@),
        PrivateKeyView::X25519(key) => written_or(
            pkcs8_der(X25519_OID@, key),
            "invalid X25519 private key"@,
        ),
        PrivateKeyView::Ed25519(key) => written_or(
            pkcs8_der(ED25519_OID@, key),
            "invalid ED25519 private key"@,
        ),
        PrivateKeyView::Dh(key) => written_or(
            pkcs8_der(DH_KEY_AGREEMENT_OID@, key),
            "invalid DH private key"@,
        ),
    }
}

/// A private key in DER of a given type.
pub open spec fn private_der(key: PrivateKeyView, typ: Seq<char>) -> Result<Seq<u8>, ErrorView> {
    if typ == "pkcs1"@ {
        match key {
            PrivateKeyView::Rsa(key) => written_or(
                rsa_private_pkcs1(key),
                "invalid RSA private key"@,
            ),
            _ => Err(
                type_error_view("exporting non-RSA private key as PKCS#1 is not supported"@),
            ),
        }
    } else if typ == "sec1"@ {
        match key {
            PrivateKeyView::Ec(key) => written_or(ec_sec1(key), "invalid EC private key"@),
            _ => Err(type_error_view("exporting non-EC private key as SEC1 is not supported"@)),
        }
    } else if typ == "pkcs8"@ {
        private_pkcs8(key)
    } else {
        Err(type_error_view("unsupported key type: "@ + typ))
    }
}

/// The public key that belongs to a private key other than a Diffie-Hellman one.
pub open spec fn public_of(key: PrivateKeyView) -> PublicKeyView {
    match key {
        PrivateKeyView::Rsa(key) => PublicKeyView::Rsa(key.public()),
        PrivateKeyView::RsaPss(key) => PublicKeyView::RsaPss(key.public()),
        PrivateKeyView::Dsa(key) => PublicKeyView::Dsa(key.verifying_key),
        PrivateKeyView::Ec(key) => PublicKeyView::Ec(ec_public(key)),
        PrivateKeyView::X25519(key) => PublicKeyView::X25519(x25519_public(key)),
        PrivateKeyView::Ed25519(key) => PublicKeyView::Ed25519(ed25519_public(key)),
        PrivateKeyView::Dh(key) => PublicKeyView::Dh(key),
    }
}

/// What reading a written private key gives: the key itself. A DSA key is read
/// with its public component computed anew, which changes nothing where that
/// component belongs to its secret exponent.
pub open spec fn same_private_key(
    back: Result<PrivateKeyView, ErrorView>,
    key: PrivateKeyView,
) -> bool {
    match key {
        PrivateKeyView::Dsa(dsa) if dsa.is_consistent() => back == Ok::<_, ErrorView>(key),
        PrivateKeyView::Dsa(key) => {
            ||| back == Err::<PrivateKeyView, _>(type_error_view("invalid DSA private key"@))
            ||| {
                &&& back matches Ok(PrivateKeyView::Dsa(b))
                &&& b.verifying_key.p == key.verifying_key.p
                &&& b.verifying_key.q == key.verifying_key.q
                &&& b.verifying_key.g == key.verifying_key.g
                &&& b.x == key.x
            }
        },
        _ => back == Ok::<_, ErrorView>(key),
    }
}

/// What reading a written public key gives: the key itself. An RSA key is refused
/// where the reader does not take its numbers.
pub open spec fn same_public_key(
    back: Result<PublicKeyView, ErrorView>,
    key: PublicKeyView,
) -> bool {
    match key {
        PublicKeyView::Rsa(rsa) if !rsa.is_readable() => back is Err,
        _ => back == Ok::<_, ErrorView>(key),
    }
}

/// The formats and types of keys have different names.
proof fn lemma_key_types_differ()
    ensures
        "pem"@ != "der"@,
        "pkcs1"@ != "pkcs8"@,
        "pkcs1"@ != "spki"@,
        "pkcs1"@ != "sec1"@,
        "pkcs8"@ != "sec1"@,
        "RSA PRIVATE KEY"@ != "PRIVATE KEY"@,
        "RSA PRIVATE KEY"@ != "ENCRYPTED PRIVATE KEY"@,
        "PRIVATE KEY"@ != "ENCRYPTED PRIVATE KEY"@,
        "RSA PUBLIC KEY"@ != "PUBLIC KEY"@,
{
    reveal_strlit("pem");
    reveal_strlit("der");
    reveal_strlit("pkcs1");
    reveal_strlit("pkcs8");
    reveal_strlit("spki");
    reveal_strlit("sec1");
    assert("pem"@[0] == 'p' && "der"@[0] == 'd');
    assert("pkcs1"@.len() == 5 && "pkcs8"@.len() == 5 && "spki"@.len() == 4 && "sec1"@.len() == 4);
    assert("pkcs1"@[4] == '1' && "pkcs8"@[4] == '8');
    assert("RSA PRIVATE KEY"@.len() == 15) by {
        reveal_strlit("RSA PRIVATE KEY");
    }
    assert("PRIVATE KEY"@.len() == 11) by {
        reveal_strlit("PRIVATE KEY");
    }
    assert("ENCRYPTED PRIVATE KEY"@.len() == 21) by {
        reveal_strlit("ENCRYPTED PRIVATE KEY");
    }
    assert("RSA PUBLIC KEY"@.len() == 14) by {
        reveal_strlit("RSA PUBLIC KEY");
    }
    assert("PUBLIC KEY"@.len() == 10) by {
        reveal_strlit("PUBLIC KEY");
    }
}

impl EcPrivateKey {
    /// Derives the public key from the private key.
    pub fn to_public_key(&self) -> (r: EcPublicKey)
        ensures
            r@ == ec_public(self@),
            ec_point(r@.curve, r@.bytes) == Some(r@.bytes),
    {
        match self {
            EcPrivateKey::P224(key) => EcPublicKey::P224(key.public_key()),
            EcPrivateKey::P256(key) => EcPublicKey::P256(key.public_key()),
            EcPrivateKey::P384(key) => EcPublicKey::P384(key.public_key()),
        }
    }

    /// The key as a SEC1 structure.
    fn to_sec1_der(&self) -> (r: Option<Vec<u8>>)
        ensures
            opt_bytes(r) == ec_sec1(self@),
    {
        match self {
            EcPrivateKey::P224(key) => key.to_sec1_der(),
            EcPrivateKey::P256(key) => key.to_sec1_der(),
            EcPrivateKey::P384(key) => key.to_sec1_der(),
        }
    }

    /// The key as a PKCS#8 structure.
    fn to_pkcs8_der(&self) -> (r: Option<Vec<u8>>)
        ensures
            opt_bytes(r) == ec_pkcs8(self@),
            r matches Some(der) ==> {
                &&& private_key_info(der@) matches Some(info)
                &&& reads_as_pkcs8(der@, info)
                &&& private_key_of_info(info) == Ok::<_, ErrorView>(PrivateKeyView::Ec(self@))
            },
    {
        proof {
            lemma_key_oids_differ();
            lemma_curve_oids_differ();
        }
        match self {
            EcPrivateKey::P224(key) => key.to_pkcs8_der(),
            EcPrivateKey::P256(key) => key.to_pkcs8_der(),
            EcPrivateKey::P384(key) => key.to_pkcs8_der(),
        }
    }
}

impl AsymmetricPublicKey {
    /// Writes the key in DER of a given type.
    pub fn export_der(&self, typ: &str) -> (r: Result<Vec<u8>, AnyError>)
        ensures
            result_view(r) == public_der(self@, typ@),
            self@.wf() ==> (r matches Ok(der) ==> {
                &&& readable_public_key(der@, "der"@, typ@)
                &&& same_public_key(public_key_from(der@, "der"@, typ@), self@)
            }),
            self@.wf() && typ@ == "spki"@ ==> (r matches Ok(der) ==> {
                &&& spki(der@) matches Ok(info)
                &&& has_whole_key(info)
                &&& same_public_key(public_key_of_spki(info), self@)
            }),
            self@.wf() && typ@ == "pkcs1"@ ==> (r matches Ok(der) ==> (self@ matches
                PublicKeyView::Rsa(key) && (key.is_readable() ==> rsa_public_key(der@) is Ok))),
    {
        proof {
            lemma_key_types_differ();
            lemma_key_oids_differ();
            lemma_curve_oids_differ();
        }
        if str_eq(typ, "pkcs1") {
            match self {
                AsymmetricPublicKey::Rsa(key) => or_invalid(
                    write_rsa_public_pkcs1(key),
                    "invalid RSA public key",
                ),
                _ => Err(type_error("exporting non-RSA public key as PKCS#1 is not supported")),
            }
        } else if str_eq(typ, "spki") {
            match self {
                AsymmetricPublicKey::Rsa(key) => or_invalid(
                    write_rsa_public_spki(key),
                    "invalid RSA public key",
                ),
                AsymmetricPublicKey::RsaPss(_) => Err(
                    generic_error("exporting RSA-PSS public key as SPKI is not supported yet"),
                ),
                AsymmetricPublicKey::Dsa(key) => or_invalid(
                    write_dsa_public_spki(key),
                    "invalid DSA public key",
                ),
                AsymmetricPublicKey::Ec(key) => {
                    let (sec1, curve) = match key {
                        EcPublicKey::P224(key) => (key.as_slice(), NamedCurve::P224),
                        EcPublicKey::P256(key) => (key.as_slice(), NamedCurve::P256),
                        EcPublicKey::P384(key) => (key.as_slice(), NamedCurve::P384),
                    };
                    or_invalid(
                        write_spki(EC_OID.as_slice(), Some(curve.to_oid().as_slice()), sec1),
                        "invalid EC public key",
                    )
                },
                AsymmetricPublicKey::X25519(key) => or_invalid(
                    write_spki(X25519_OID.as_slice(), None, key.as_slice()),
                    "invalid X25519 public key",
                ),
                AsymmetricPublicKey::Ed25519(key) => or_invalid(
                    write_spki(ED25519_OID.as_slice(), None, key.as_slice()),
                    "invalid Ed25519 public key",
                ),
                AsymmetricPublicKey::Dh(key) => or_invalid(
                    write_spki(DH_KEY_AGREEMENT_OID.as_slice(), None, key.as_slice()),
                    "invalid DH public key",
                ),
            }
        } else {
            Err(type_error(concat2("unsupported key type: ", typ).as_str()))
        }
    }
}

impl AsymmetricPrivateKey {
    /// Derives the public key from the private key.
    pub fn to_public_key(&self) -> (r: AsymmetricPublicKey)
        requires
            !(self@ is Dh),
        ensures
            r@ == public_of(self@),
            self@.wf() ==> r@.wf(),
    {
        match self {
            AsymmetricPrivateKey::Rsa(key) => AsymmetricPublicKey::Rsa(key.to_public_key()),
            AsymmetricPrivateKey::RsaPss(key) => AsymmetricPublicKey::RsaPss(key.to_public_key()),
            AsymmetricPrivateKey::Dsa(key) => AsymmetricPublicKey::Dsa(key.verifying_key.clone()),
            AsymmetricPrivateKey::Ec(key) => AsymmetricPublicKey::Ec(key.to_public_key()),
            AsymmetricPrivateKey::X25519(key) => AsymmetricPublicKey::X25519(
                derive_x25519_public(key),
            ),
            AsymmetricPrivateKey::Ed25519(key) => AsymmetricPublicKey::Ed25519(
                derive_ed25519_public(key),
            ),
            AsymmetricPrivateKey::Dh(_) => unreached(),
        }
    }

    /// Writes the key in DER of a given type.
    pub fn export_der(&self, typ: &str) -> (r: Result<Vec<u8>, AnyError>)
        ensures
            result_view(r) == private_der(self@, typ@),
            self@.wf() && typ@ != "sec1"@ ==> (r matches Ok(der) ==> same_private_key(
                private_key_from(der@, "der"@, typ@, None),
                self@,
            )),
            self@.wf() && typ@ == "pkcs8"@ ==> (r matches Ok(der) ==> {
                &&& private_key_info(der@) matches Some(info)
                &&& same_private_key(private_key_of_info(info), self@)
            }),
            self@.wf() && typ@ == "pkcs1"@ ==> (r matches Ok(der) ==> rsa_private_key(
                der@,
            ) is Some),
    {
        proof {
            lemma_key_types_differ();
            lemma_key_oids_differ();
        }
        if str_eq(typ, "pkcs1") {
            match self {
                AsymmetricPrivateKey::Rsa(key) => or_invalid(
                    write_rsa_private_pkcs1(key),
                    "invalid RSA private key",
                ),
                _ => Err(type_error("exporting non-RSA private key as PKCS#1 is not supported")),
            }
        } else if str_eq(typ, "sec1") {
            match self {
                AsymmetricPrivateKey::Ec(key) => or_invalid(
                    key.to_sec1_der(),
                    "invalid EC private key",
                ),
                _ => Err(type_error("exporting non-EC private key as SEC1 is not supported")),
            }
        } else if str_eq(typ, "pkcs8") {
            match self {
                AsymmetricPrivateKey::Rsa(key) => or_invalid(
                    write_rsa_private_pkcs8(key),
                    "invalid RSA private key",
                ),
                AsymmetricPrivateKey::RsaPss(_) => Err(
                    generic_error("exporting RSA-PSS private key as PKCS#8 is not supported yet"),
                ),
                AsymmetricPrivateKey::Dsa(key) => or_invalid(
                    write_dsa_private_pkcs8(key),
                    "invalid DSA private key",
                ),
                AsymmetricPrivateKey::Ec(key) => or_invalid(
                    key.to_pkcs8_der(),
                    "invalid EC private key",
                ),
                AsymmetricPrivateKey::X25519(key) => or_invalid(
                    write_pkcs8(X25519_OID.as_slice(), key.as_slice()),
                    "invalid X25519 private key",
                ),
                AsymmetricPrivateKey::Ed25519(key) => or_invalid(
                    write_pkcs8(ED25519_OID.as_slice(), key.as_slice()),
                    "invalid ED25519 private key",
                ),
                AsymmetricPrivateKey::Dh(key) => or_invalid(
                    write_pkcs8(DH_KEY_AGREEMENT_OID.as_slice(), key.as_slice()),
                    "invalid DH private key",
                ),
            }
        } else {
            Err(type_error(concat2("unsupported key type: ", typ).as_str()))
        }
    }
}

/// The size of the buffer that a PEM file is written into.
pub const PEM_CAPACITY: usize = 2048;

/// A document in a PEM file under a label.
pub open spec fn pem_of_der(label: Seq<char>, der: Seq<u8>) -> Result<Seq<char>, ErrorView> {
    match pem_text(label, der, PEM_CAPACITY as nat) {
        Ok(text) => Ok(text),
        Err(message) => Err(generic_error_view(message)),
    }
}

/// The label for a public key of a given type.
pub open spec fn public_label(typ: Seq<char>) -> Seq<char> {
    if typ == "pkcs1"@ {
        "RSA PUBLIC KEY"@
    } else {
        "PUBLIC KEY"@
    }
}

/// The label for a private key of a given type.
pub open spec fn private_label(typ: Seq<char>) -> Seq<char> {
    if typ == "pkcs1"@ {
        "RSA PRIVATE KEY"@
    } else if typ == "pkcs8"@ {
        "PRIVATE KEY"@
    } else {
        "EC PRIVATE KEY"@
    }
}

/// A public key in a PEM file.
pub open spec fn public_key_pem(key: PublicKeyView, typ: Seq<char>) -> Result<
    Seq<char>,
    ErrorView,
> {
    match public_der(key, typ) {
        Err(e) => Err(e),
        Ok(der) => pem_of_der(public_label(typ), der),
    }
}

/// A private key in a PEM file.
pub open spec fn private_key_pem(key: PrivateKeyView, typ: Seq<char>) -> Result<
    Seq<char>,
    ErrorView,
> {
    match private_der(key, typ) {
        Err(e) => Err(e),
        Ok(der) => pem_of_der(private_label(typ), der),
    }
}

/// A document in a PEM file under a label.
fn to_pem(label: &'static str, der: &Vec<u8>) -> (r: Result<String, AnyError>)
    ensures
        result_view(r) == pem_of_der(label@, der@),
        known_label(label@) && (private_key_info(der@) is Some || rsa_private_key(der@) is Some)
            ==> (r matches Ok(text) ==> secret_pem(text@) == Some((label@, der@))),
        known_label(label@) ==> (r matches Ok(text) ==> public_pem(text@) is None || public_pem(
            text@,
        ) == Some((label@, der@))),
        known_label(label@) && (spki(der@) is Ok || rsa_public_key(der@) is Ok) ==> (r matches Ok(
            text,
        ) ==> public_pem(text@) == Some((label@, der@))),
{
    match write_pem(label, der.as_slice(), PEM_CAPACITY) {
        Ok(text) => Ok(text),
        Err(message) => Err(generic_error(message.as_str())),
    }
}

impl AsymmetricPublicKey {
    /// Writes the key as a PEM file of a given type.
    pub fn export_pem(&self, typ: &str) -> (r: Result<String, AnyError>)
        ensures
            result_view(r) == public_key_pem(self@, typ@),
            self@.wf() ==> (r matches Ok(text) ==> forall|bytes: Seq<u8>, any_typ: Seq<char>|
                valid_utf8(bytes) && decode_utf8(bytes) == text@ ==> {
                    &&& readable_public_key(bytes, "pem"@, any_typ)
                    &&& same_public_key(#[trigger] public_key_from(bytes, "pem"@, any_typ), self@)
                }),
    {
        proof {
            lemma_key_types_differ();
        }
        match self.export_der(typ) {
            Err(e) => Err(e),
            Ok(der) => {
                let label: &'static str = if str_eq(typ, "pkcs1") {
                    "RSA PUBLIC KEY"
                } else {
                    "PUBLIC KEY"
                };
                to_pem(label, &der)
            },
        }
    }
}

impl AsymmetricPrivateKey {
    /// Writes the key as a PEM file of a given type.
    pub fn export_pem(&self, typ: &str) -> (r: Result<String, AnyError>)
        ensures
            result_view(r) == private_key_pem(self@, typ@),
            self@.wf() && typ@ != "sec1"@ ==> (r matches Ok(text) ==> forall|
                bytes: Seq<u8>,
                any_typ: Seq<char>,
            |
                valid_utf8(bytes) && decode_utf8(bytes) == text@ ==> same_private_key(
                    #[trigger] private_key_from(bytes, "pem"@, any_typ, None),
                    self@,
                )),
    {
        proof {
            lemma_key_types_differ();
        }
        match self.export_der(typ) {
            Err(e) => Err(e),
            Ok(der) => {
                let label: &'static str = if str_eq(typ, "pkcs1") {
                    "RSA PRIVATE KEY"
                } else if str_eq(typ, "pkcs8") {
                    "PRIVATE KEY"
                } else {
                    "EC PRIVATE KEY"
                };
                to_pem(label, &der)
            },
        }
    }
}

} // verus!
