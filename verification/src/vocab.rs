//! The IRIs of the RDF and OWL vocabularies that the recognizers look for.

use vstd::prelude::*;

verus! {

/// Terms of the RDF vocabulary.
#[derive(Clone, Copy, Debug, PartialEq, Eq, Structural)]
pub enum RDF {
    Type,
}

/// Terms of the OWL vocabulary.
#[derive(Clone, Copy, Debug, PartialEq, Eq, Structural)]
pub enum OWL {
    Class,
    Ontology,
    VersionIRI,
}

impl RDF {
    /// The characters of the term's IRI.
    pub open spec fn iri_text(self) -> Seq<char> {
        match self {
            RDF::Type => "http://www.w3.org/1999/02/22-rdf-syntax-ns#type"@,
        }
    }

    /// The term's IRI.
    pub fn iri_str(&self) -> (r: &'static str)
        ensures
            r@ == self.iri_text(),
    {
        match self {
            RDF::Type => "http://www.w3.org/1999/02/22-rdf-syntax-ns#type",
        }
    }
}

impl OWL {
    /// The characters of the term's IRI.
    pub open spec fn iri_text(self) -> Seq<char> {
        match self {
            OWL::Class => "http://www.w3.org/2002/07/owl#Class"@,
            OWL::Ontology => "http://www.w3.org/2002/07/owl#Ontology"@,
            OWL::VersionIRI => "http://www.w3.org/2002/07/owl#versionIRI"@,
        }
    }

    /// The term's IRI.
    pub fn iri_str(&self) -> (r: &'static str)
        ensures
            r@ == self.iri_text(),
    {
        match self {
            OWL::Class => "http://www.w3.org/2002/07/owl#Class",
            OWL::Ontology => "http://www.w3.org/2002/07/owl#Ontology",
            OWL::VersionIRI => "http://www.w3.org/2002/07/owl#versionIRI",
        }
    }
}

/// No OWL term shares its IRI with `rdf:type`, and no two OWL terms share one.
pub proof fn lemma_vocabulary_distinct()
    ensures
        forall|o: OWL| o.iri_text() != RDF::Type.iri_text(),
        forall|a: OWL, b: OWL| a != b ==> a.iri_text() != b.iri_text(),
{
    reveal_strlit("http://www.w3.org/1999/02/22-rdf-syntax-ns#type");
    reveal_strlit("http://www.w3.org/2002/07/owl#Class");
    reveal_strlit("http://www.w3.org/2002/07/owl#Ontology");
    reveal_strlit("http://www.w3.org/2002/07/owl#versionIRI");
    assert(RDF::Type.iri_text().len() == 47);
    assert(OWL::Class.iri_text().len() == 35);
    assert(OWL::Ontology.iri_text().len() == 38);
    assert(OWL::VersionIRI.iri_text().len() == 40);
}

/// Whether `s` holds exactly the characters of `text`.
pub fn text_is(s: &String, text: &str) -> (r: bool)
    ensures
        r == (s@ == text@),
{
    let owned = text.to_owned();
    *s == owned
}

} // verus!
