use vstd::prelude::*;

verus! {

/// An identity as the dashboard sees it: its decentralized identifier. The
/// DID document and the signing key stay with the identity library.
pub struct IdentityRecord {
    pub id: String,
}

/// The claims of the degree credential about its subject.
pub struct DegreeClaims {
    pub name: String,
    pub degree_type: String,
    pub degree_name: String,
    pub gpa: String,
}

/// A credential issued by one identity about another.
pub struct CredentialRecord {
    pub id: String,
    pub credential_type: String,
    pub issuer_id: String,
    pub subject_id: String,
    pub claims: DegreeClaims,
}

pub open spec fn degree_claims_hold(c: DegreeClaims) -> bool {
    &&& c.name@ == "Alice"@
    &&& c.degree_type@ == "BachelorDegree"@
    &&& c.degree_name@ == "Bachelor of Science and Arts"@
    &&& c.gpa@ == "4.0"@
}

/// Builds the university degree credential that `issuer` asserts about `subject`.
pub fn issue_degree(issuer: &IdentityRecord, subject: &IdentityRecord) -> (r: CredentialRecord)
    ensures
        r.issuer_id@ == issuer.id@,
        r.subject_id@ == subject.id@,
        r.id@ == "https://example.edu/credentials/3732"@,
        r.credential_type@ == "UniversityDegreeCredential"@,
        degree_claims_hold(r.claims),
{
    let claims = DegreeClaims {
        name: String::from_str("Alice"),
        degree_type: String::from_str("BachelorDegree"),
        degree_name: String::from_str("Bachelor of Science and Arts"),
        gpa: String::from_str("4.0"),
    };
    CredentialRecord {
        id: String::from_str("https://example.edu/credentials/3732"),
        credential_type: String::from_str("UniversityDegreeCredential"),
        issuer_id: issuer.id.clone(),
        subject_id: subject.id.clone(),
        claims,
    }
}

} // verus!
