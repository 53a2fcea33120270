//! The DID document: the identifier, the keys that speak for it, and the
//! services it offers.

use vstd::prelude::*;

use crate::json::{
    array, json_array, json_object, json_of, json_string, jsons_of, member, object, optional,
    optional_array, required, string_json, texts_of, Canonical,
};
use crate::error::Error;
use crate::jwk::PublicKeyJwk;
use crate::resolve::DocumentMetadata;
use crate::KeyPurpose;
use crate::text::{append_chars, chars_eq, chars_of, starts_with};

verus! {

/// Verification method types.
#[derive(Debug, Clone, Copy, PartialEq, Eq, Structural)]
pub enum MethodType {
    /// `Multikey`
    Multikey,
    /// `Ed25519VerificationKey2020`
    Ed25519VerificationKey2020,
    /// `X25519KeyAgreementKey2020`
    X25519KeyAgreementKey2020,
    /// `JsonWebKey2020`
    JsonWebKey2020,
    /// `EcdsaSecp256k1VerificationKey2019`
    EcdsaSecp256k1VerificationKey2019,
}

/// The public key of a verification method, in the one form it is given in.
#[derive(Debug, Clone, PartialEq, Eq)]
pub enum PublicKeyFormat {
    /// The key in multibase form.
    PublicKeyMultibase(String),
    /// The key as a JWK.
    PublicKeyJwk(PublicKeyJwk),
}

/// A public key of a DID document, with its identifier and controller.
#[derive(Debug, Clone, PartialEq, Eq)]
pub struct VerificationMethod {
    /// The DID URL of the method.
    pub id: String,
    /// The DID of the method's controller.
    pub controller: String,
    /// The method's type.
    pub type_: MethodType,
    /// The public key.
    pub key: PublicKeyFormat,
}

/// An entry of a verification relationship: a verification method of its
/// own, or a reference to one.
#[derive(Debug, Clone, PartialEq, Eq)]
pub enum Relation {
    /// A reference to a verification method, by its identifier.
    Reference(String),
    /// A verification method held inline.
    Embedded(VerificationMethod),
}

/// A service that the DID subject offers.
#[derive(Debug, Clone, PartialEq, Eq)]
pub struct Service {
    /// The service's identifier.
    pub id: String,
    /// The service's type.
    pub type_: String,
    /// Where the service is reached.
    pub service_endpoint: Vec<String>,
}

/// A DID document.
#[derive(Debug, Clone, PartialEq, Eq)]
pub struct Document {
    /// The JSON-LD contexts, in order.
    pub context: Vec<String>,
    /// The DID that the document is about.
    pub id: String,
    /// Other identifiers of the subject.
    pub also_known_as: Option<Vec<String>>,
    /// The DIDs that may change the document.
    pub controller: Option<Vec<String>>,
    /// The verification methods.
    pub verification_method: Option<Vec<VerificationMethod>>,
    /// The methods that authenticate the subject.
    pub authentication: Option<Vec<Relation>>,
    /// The methods that assert claims.
    pub assertion_method: Option<Vec<Relation>>,
    /// The methods that agree on keys.
    pub key_agreement: Option<Vec<Relation>>,
    /// The methods that invoke capabilities.
    pub capability_invocation: Option<Vec<Relation>>,
    /// The methods that delegate capabilities.
    pub capability_delegation: Option<Vec<Relation>>,
    /// The services.
    pub service: Option<Vec<Service>>,
    /// What is known of the document's place in its history.
    pub did_document_metadata: Option<DocumentMetadata>,
}

impl MethodType {
    /// The method type's name.
    pub open spec fn name(self) -> Seq<char> {
        match self {
            MethodType::Multikey => "Multikey"@,
            MethodType::Ed25519VerificationKey2020 => "Ed25519VerificationKey2020"@,
            MethodType::X25519KeyAgreementKey2020 => "X25519KeyAgreementKey2020"@,
            MethodType::JsonWebKey2020 => "JsonWebKey2020"@,
            MethodType::EcdsaSecp256k1VerificationKey2019 => "EcdsaSecp256k1VerificationKey2019"@,
        }
    }

    /// The method type's name.
    pub fn as_str(&self) -> (s: &'static str)
        ensures
            s@ == self.name(),
    {
        match self {
            MethodType::Multikey => "Multikey",
            MethodType::Ed25519VerificationKey2020 => "Ed25519VerificationKey2020",
            MethodType::X25519KeyAgreementKey2020 => "X25519KeyAgreementKey2020",
            MethodType::JsonWebKey2020 => "JsonWebKey2020",
            MethodType::EcdsaSecp256k1VerificationKey2019 => "EcdsaSecp256k1VerificationKey2019",
        }
    }
}

impl VerificationMethod {
    /// The members of the method's JSON object: `controller`, `id`, the
    /// public key as `publicKeyJwk` or `publicKeyMultibase`, and `type`.
    pub open spec fn members(&self) -> Seq<Seq<char>> {
        required("controller"@, json_string(self.controller@)) + required(
            "id"@,
            json_string(self.id@),
        ) + (match self.key {
            PublicKeyFormat::PublicKeyJwk(jwk) => required("publicKeyJwk"@, jwk.json()),
            PublicKeyFormat::PublicKeyMultibase(key) => required(
                "publicKeyMultibase"@,
                json_string(key@),
            ),
        }) + required("type"@, json_string(self.type_.name()))
    }
}

impl Canonical for VerificationMethod {
    open spec fn json(&self) -> Seq<char> {
        json_object(self.members())
    }

    fn push_json(&self, out: &mut Vec<char>) {
        let mut members: Vec<Vec<char>> = Vec::new();
        members.push(member("controller", string_json(self.controller.as_str())));
        members.push(member("id", string_json(self.id.as_str())));
        match &self.key {
            PublicKeyFormat::PublicKeyJwk(jwk) => {
                members.push(member("publicKeyJwk", json_of(jwk)));
            },
            PublicKeyFormat::PublicKeyMultibase(key) => {
                members.push(member("publicKeyMultibase", string_json(key.as_str())));
            },
        }
        members.push(member("type", string_json(self.type_.as_str())));
        assert(texts_of(members@) =~= self.members());
        let text = object(&members);
        append_chars(out, &text);
    }
}

impl Canonical for Relation {
    /// A reference is a string, an embedded method an object.
    open spec fn json(&self) -> Seq<char> {
        match self {
            Relation::Reference(id) => json_string(id@),
            Relation::Embedded(method) => method.json(),
        }
    }

    fn push_json(&self, out: &mut Vec<char>) {
        match self {
            Relation::Reference(id) => {
                let text = string_json(id.as_str());
                append_chars(out, &text);
            },
            Relation::Embedded(method) => {
                method.push_json(out);
            },
        }
    }
}

impl Service {
    /// The members of the service's JSON object: `id`, `serviceEndpoint`
    /// and `type`.
    pub open spec fn members(&self) -> Seq<Seq<char>> {
        required("id"@, json_string(self.id@)) + required(
            "serviceEndpoint"@,
            json_array(jsons_of(self.service_endpoint@)),
        ) + required("type"@, json_string(self.type_@))
    }
}

impl Canonical for Service {
    open spec fn json(&self) -> Seq<char> {
        json_object(self.members())
    }

    fn push_json(&self, out: &mut Vec<char>) {
        let mut members: Vec<Vec<char>> = Vec::new();
        members.push(member("id", string_json(self.id.as_str())));
        members.push(member("serviceEndpoint", array(&self.service_endpoint)));
        members.push(member("type", string_json(self.type_.as_str())));
        assert(texts_of(members@) =~= self.members());
        let text = object(&members);
        append_chars(out, &text);
    }
}

impl Document {
    /// The members of the document's JSON object, in the order of their
    /// names: `@context`, `alsoKnownAs`, `assertionMethod`, `authentication`,
    /// `capabilityDelegation`, `capabilityInvocation`, `controller`, `id`,
    /// `keyAgreement`, `service` and `verificationMethod`. A member without
    /// a value is left out, and so is what is known of the document's place
    /// in its history.
    pub open spec fn members(&self) -> Seq<Seq<char>> {
        required("@context"@, json_array(jsons_of(self.context@))) + optional(
            "alsoKnownAs"@,
            optional_array(self.also_known_as),
        ) + optional("assertionMethod"@, optional_array(self.assertion_method)) + optional(
            "authentication"@,
            optional_array(self.authentication),
        ) + optional("capabilityDelegation"@, optional_array(self.capability_delegation))
            + optional("capabilityInvocation"@, optional_array(self.capability_invocation))
            + optional("controller"@, optional_array(self.controller)) + required(
            "id"@,
            json_string(self.id@),
        ) + optional("keyAgreement"@, optional_array(self.key_agreement)) + optional(
            "service"@,
            optional_array(self.service),
        ) + optional("verificationMethod"@, optional_array(self.verification_method))
    }
}

/// Adds the member `key` with the array `items` to `members`, where there
/// is such an array.
fn push_optional_array<T: Canonical>(
    members: &mut Vec<Vec<char>>,
    key: &str,
    items: &Option<Vec<T>>,
)
    ensures
        texts_of(final(members)@) == texts_of(old(members)@) + optional(
            key@,
            optional_array(*items),
        ),
{
    let ghost before = texts_of(members@);
    match items {
        Some(v) => {
            members.push(member(key, array(v)));
        },
        None => {},
    }
    assert(texts_of(members@) =~= before + optional(key@, optional_array(*items)));
}

/// Adds the member `key` with a value whose text is `value` to `members`.
fn push_required(members: &mut Vec<Vec<char>>, key: &str, value: Vec<char>)
    ensures
        texts_of(final(members)@) == texts_of(old(members)@) + required(key@, value@),
{
    let ghost before = texts_of(members@);
    members.push(member(key, value));
    assert(texts_of(members@) =~= before + required(key@, value@));
}

impl Canonical for Document {
    open spec fn json(&self) -> Seq<char> {
        json_object(self.members())
    }

    fn push_json(&self, out: &mut Vec<char>) {
        let mut members: Vec<Vec<char>> = Vec::new();
        assert(texts_of(members@) =~= Seq::<Seq<char>>::empty());
        push_required(&mut members, "@context", array(&self.context));
        push_optional_array(&mut members, "alsoKnownAs", &self.also_known_as);
        push_optional_array(&mut members, "assertionMethod", &self.assertion_method);
        push_optional_array(&mut members, "authentication", &self.authentication);
        push_optional_array(&mut members, "capabilityDelegation", &self.capability_delegation);
        push_optional_array(&mut members, "capabilityInvocation", &self.capability_invocation);
        push_optional_array(&mut members, "controller", &self.controller);
        push_required(&mut members, "id", string_json(self.id.as_str()));
        push_optional_array(&mut members, "keyAgreement", &self.key_agreement);
        push_optional_array(&mut members, "service", &self.service);
        push_optional_array(&mut members, "verificationMethod", &self.verification_method);
        assert(texts_of(members@) =~= self.members());
        let text = object(&members);
        append_chars(out, &text);
    }
}

impl Document {
    /// Whether `reference` points into this document: it is a fragment, which
    /// begins with `#`, or begins with the document's DID and `#`.
    pub open spec fn is_local(&self, reference: Seq<char>) -> bool {
        ||| reference.len() > 0 && reference[0] == '#'
        ||| (self.id@ + seq!['#']).is_prefix_of(reference)
    }

    /// Whether `reference` names `method`: it is the method's identifier, or
    /// the fragment that with the document's DID makes up the identifier.
    pub open spec fn names(&self, reference: Seq<char>, method: VerificationMethod) -> bool {
        ||| method.id@ == reference
        ||| reference.len() > 0 && reference[0] == '#' && method.id@ == self.id@ + reference
    }

    /// Whether `reference` names one of the document's verification methods.
    pub open spec fn has_method(&self, reference: Seq<char>) -> bool {
        &&& self.verification_method is Some
        &&& exists|i: int|
            0 <= i < self.verification_method->0@.len() && self.names(
                reference,
                #[trigger] self.verification_method->0@[i],
            )
    }

    /// Whether `relation` holds: a reference that points into this document
    /// names one of its verification methods.
    pub open spec fn relation_holds(&self, relation: Relation) -> bool {
        relation matches Relation::Reference(r) ==> (self.is_local(r@) ==> self.has_method(r@))
    }

    /// Whether every entry of `relations` holds.
    pub open spec fn relations_hold(&self, relations: Option<Vec<Relation>>) -> bool {
        relations is Some ==> forall|i: int|
            0 <= i < relations->0@.len() ==> self.relation_holds(#[trigger] relations->0@[i])
    }

    /// Whether the references of the document hold: in every verification
    /// relationship, a reference that points into this document names one of
    /// its verification methods. A reference to another document is not
    /// looked at.
    pub open spec fn references_hold(&self) -> bool {
        &&& self.relations_hold(self.authentication)
        &&& self.relations_hold(self.assertion_method)
        &&& self.relations_hold(self.key_agreement)
        &&& self.relations_hold(self.capability_invocation)
        &&& self.relations_hold(self.capability_delegation)
    }

    /// Whether `reference` points into this document.
    fn local(&self, reference: &Vec<char>) -> (r: bool)
        ensures
            r == self.is_local(reference@),
    {
        if reference.len() > 0 && reference[0] == '#' {
            return true;
        }
        let mut prefix = chars_of(self.id.as_str());
        prefix.push('#');
        starts_with(reference, &prefix)
    }

    /// Whether `reference` names one of the document's verification methods.
    fn find_method(&self, reference: &Vec<char>) -> (r: bool)
        ensures
            r == self.has_method(reference@),
    {
        let methods = match &self.verification_method {
            Some(methods) => methods,
            None => {
                return false;
            },
        };
        let fragment = reference.len() > 0 && reference[0] == '#';
        let mut whole = chars_of(self.id.as_str());
        append_chars(&mut whole, reference);
        let n: usize = methods.len();
        let mut i: usize = 0;
        while i < n
            invariant
                n == methods@.len(),
                i <= n,
                self.verification_method == Some(*methods),
                fragment == (reference@.len() > 0 && reference@[0] == '#'),
                whole@ == self.id@ + reference@,
                forall|k: int| 0 <= k < i ==> !self.names(reference@, #[trigger] methods@[k]),
            decreases n - i,
        {
            let id = chars_of(methods[i].id.as_str());
            if chars_eq(&id, reference) || (fragment && chars_eq(&id, &whole)) {
                assert(self.names(reference@, self.verification_method->0@[i as int]));
                return true;
            }
            i += 1;
        }
        false
    }

    /// Whether every entry of `relations` holds.
    fn check_relations(&self, relations: &Option<Vec<Relation>>) -> (r: bool)
        ensures
            r == self.relations_hold(*relations),
    {
        let entries = match relations {
            Some(entries) => entries,
            None => {
                return true;
            },
        };
        let n: usize = entries.len();
        let mut i: usize = 0;
        while i < n
            invariant
                n == entries@.len(),
                i <= n,
                *relations == Some(*entries),
                forall|k: int| 0 <= k < i ==> self.relation_holds(#[trigger] entries@[k]),
            decreases n - i,
        {
            if let Relation::Reference(reference) = &entries[i] {
                let chars = chars_of(reference.as_str());
                if self.local(&chars) && !self.find_method(&chars) {
                    assert(!self.relation_holds(relations->0@[i as int]));
                    return false;
                }
            }
            i += 1;
        }
        true
    }

    /// Whether the references of the document hold.
    pub fn check_references(&self) -> (r: bool)
        ensures
            r == self.references_hold(),
    {
        self.check_relations(&self.authentication) && self.check_relations(&self.assertion_method)
            && self.check_relations(&self.key_agreement) && self.check_relations(
            &self.capability_invocation,
        ) && self.check_relations(&self.capability_delegation)
    }
}

impl Document {
    /// The relationship of the document that holds the keys of `purpose`;
    /// `None` for the purpose of the verification methods themselves.
    pub open spec fn relationship(&self, purpose: KeyPurpose) -> Option<Option<Vec<Relation>>> {
        match purpose {
            KeyPurpose::VerificationMethod => None,
            KeyPurpose::Authentication => Some(self.authentication),
            KeyPurpose::AssertionMethod => Some(self.assertion_method),
            KeyPurpose::KeyAgreement => Some(self.key_agreement),
            KeyPurpose::CapabilityInvocation => Some(self.capability_invocation),
            KeyPurpose::CapabilityDelegation => Some(self.capability_delegation),
        }
    }

    /// The entries of `relations`; none, where there is no such list.
    pub open spec fn entries(relations: Option<Vec<Relation>>) -> Seq<Relation> {
        match relations {
            Some(rs) => rs@,
            None => Seq::<Relation>::empty(),
        }
    }

    /// The verification methods of the document; none, where there is no
    /// such list.
    pub open spec fn methods(&self) -> Seq<VerificationMethod> {
        match self.verification_method {
            Some(ms) => ms@,
            None => Seq::<VerificationMethod>::empty(),
        }
    }

    /// A document about `did` that names the first of the base contexts and
    /// holds nothing else.
    pub fn new(did: &str) -> (doc: Document)
        ensures
            doc.id@ == did@,
            doc.context@.len() == 1,
            doc.context@[0]@ == crate::BASE_CONTEXT[0]@,
            doc.also_known_as is None,
            doc.controller is None,
            doc.verification_method is None,
            doc.authentication is None,
            doc.assertion_method is None,
            doc.key_agreement is None,
            doc.capability_invocation is None,
            doc.capability_delegation is None,
            doc.service is None,
            doc.did_document_metadata is None,
            doc.references_hold(),
    {
        let mut context: Vec<String> = Vec::new();
        context.push(crate::BASE_CONTEXT[0].to_owned());
        Document {
            context,
            id: did.to_owned(),
            also_known_as: None,
            controller: None,
            verification_method: None,
            authentication: None,
            assertion_method: None,
            key_agreement: None,
            capability_invocation: None,
            capability_delegation: None,
            service: None,
            did_document_metadata: None,
        }
    }

    /// Whether `relation` may be added to the document for `purpose`: a
    /// verification method proper is held inline, and a reference that
    /// points into the document names one of its verification methods.
    pub open spec fn admits(&self, relation: Relation, purpose: KeyPurpose) -> bool {
        if purpose == KeyPurpose::VerificationMethod {
            relation is Embedded
        } else {
            self.relation_holds(relation)
        }
    }

    /// Adds `relation` to the document for `purpose`: a verification method
    /// to the verification methods, and any other entry to the relationship
    /// of that purpose.
    ///
    /// Fails with `Other`, and changes nothing, exactly when the document
    /// does not admit `relation` for `purpose`.
    pub fn add_verification_method(&mut self, relation: Relation, purpose: KeyPurpose) -> (r:
        Result<(), Error>)
        ensures
            final(self).id == old(self).id,
            final(self).context == old(self).context,
            final(self).service == old(self).service,
            old(self).references_hold() ==> final(self).references_hold(),
            match r {
                Ok(_) => {
                    &&& old(self).admits(relation, purpose)
                    &&& match relation {
                        Relation::Embedded(method) if purpose == KeyPurpose::VerificationMethod => {
                            &&& final(self).methods() == old(self).methods().push(method)
                            &&& forall|p: KeyPurpose|
                                final(self).relationship(p) == old(self).relationship(p)
                        },
                        _ => {
                            &&& final(self).verification_method == old(self).verification_method
                            &&& final(self).relationship(purpose) is Some
                            &&& Self::entries(final(self).relationship(purpose)->0)
                                == Self::entries(old(self).relationship(purpose)->0).push(relation)
                            &&& forall|p: KeyPurpose|
                                p != purpose ==> final(self).relationship(p) == old(
                                    self,
                                ).relationship(p)
                        },
                    }
                },
                Err(e) => {
                    &&& !old(self).admits(relation, purpose)
                    &&& *final(self) == *old(self)
                    &&& e is Other
                },
            },
    {
        match purpose {
            KeyPurpose::VerificationMethod => match relation {
                Relation::Embedded(method) => {
                    let ghost before = *self;
                    let mut list = match self.verification_method.take() {
                        Some(list) => list,
                        None => Vec::new(),
                    };
                    list.push(method);
                    self.verification_method = Some(list);
                    proof {
                        before.lemma_more_methods_keep_references(*self, method);
                    }
                    Ok(())
                },
                Relation::Reference(_) => Err(
                    Error::Other("a verification method is held inline".to_owned()),
                ),
            },
            _ => {
                if !self.check_relation(&relation) {
                    return Err(Error::Other("the reference names no verification method".to_owned()));
                }
                match purpose {
                    KeyPurpose::Authentication => {
                        push_relation(&mut self.authentication, relation);
                    },
                    KeyPurpose::AssertionMethod => {
                        push_relation(&mut self.assertion_method, relation);
                    },
                    KeyPurpose::KeyAgreement => {
                        push_relation(&mut self.key_agreement, relation);
                    },
                    KeyPurpose::CapabilityInvocation => {
                        push_relation(&mut self.capability_invocation, relation);
                    },
                    _ => {
                        push_relation(&mut self.capability_delegation, relation);
                    },
                }
                Ok(())
            },
        }
    }

    /// Whether `relation` holds.
    fn check_relation(&self, relation: &Relation) -> (r: bool)
        ensures
            r == self.relation_holds(*relation),
    {
        match relation {
            Relation::Reference(reference) => {
                let chars = chars_of(reference.as_str());
                !self.local(&chars) || self.find_method(&chars)
            },
            Relation::Embedded(_) => true,
        }
    }

    /// A document with one more verification method, and else the same,
    /// keeps its references.
    proof fn lemma_more_methods_keep_references(self, more: Document, method: VerificationMethod)
        requires
            more.id == self.id,
            more.methods() == self.methods().push(method),
            more.verification_method is Some,
            more.authentication == self.authentication,
            more.assertion_method == self.assertion_method,
            more.key_agreement == self.key_agreement,
            more.capability_invocation == self.capability_invocation,
            more.capability_delegation == self.capability_delegation,
        ensures
            self.references_hold() ==> more.references_hold(),
    {
        assert forall|r: Seq<char>| self.has_method(r) implies more.has_method(r) by {
            let i = choose|i: int|
                0 <= i < self.verification_method->0@.len() && self.names(
                    r,
                    #[trigger] self.verification_method->0@[i],
                );
            assert(more.methods()[i] == self.methods()[i]);
            assert(more.names(r, more.verification_method->0@[i]));
        }
        assert forall|relation: Relation| self.relation_holds(relation) implies more.relation_holds(
            relation,
        ) by {
            if relation is Reference {
                let r = relation->Reference_0@;
                if more.is_local(r) {
                    assert(self.is_local(r));
                    assert(self.has_method(r));
                }
            }
        }
    }

    /// Adds `service` to the services of the document.
    pub fn add_service(&mut self, service: Service)
        ensures
            final(self).id == old(self).id,
            final(self).context == old(self).context,
            final(self).verification_method == old(self).verification_method,
            forall|p: KeyPurpose| final(self).relationship(p) == old(self).relationship(p),
            final(self).service matches Some(list) && list@ == (match old(self).service {
                Some(before) => before@,
                None => Seq::<Service>::empty(),
            }).push(service),
            old(self).references_hold() ==> final(self).references_hold(),
    {
        let mut list = match self.service.take() {
            Some(list) => list,
            None => Vec::new(),
        };
        list.push(service);
        self.service = Some(list);
    }
}

/// Adds `relation` to `relations`.
fn push_relation(relations: &mut Option<Vec<Relation>>, relation: Relation)
    ensures
        *final(relations) is Some,
        Document::entries(*final(relations)) == Document::entries(*old(relations)).push(relation),
{
    let mut list = match relations.take() {
        Some(list) => list,
        None => Vec::new(),
    };
    list.push(relation);
    *relations = Some(list);
}

} // verus!
