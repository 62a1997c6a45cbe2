//! Metadata of the token collection and of each minted token.

use vstd::prelude::*;

verus! {

/// The version text of the NFT metadata standard, `nft-1.0.0`.
pub open spec fn metadata_spec_text() -> Seq<char> {
    seq!['n', 'f', 't', '-', '1', '.', '0', '.', '0']
}

/// Reads `near_contract_standards::non_fungible_token::metadata::NFT_METADATA_SPEC`,
/// the constant `"nft-1.0.0"` in the version used here.
#[verifier::external_body]
fn metadata_spec_constant() -> (r: &'static str)
    ensures
        r@ == metadata_spec_text(),
{
    near_contract_standards::non_fungible_token::metadata::NFT_METADATA_SPEC
}

/// The version text of the metadata standard, as an owned string.
pub fn standard_spec() -> (r: String)
    ensures
        r@ == metadata_spec_text(),
{
    String::from_str(metadata_spec_constant())
}

/// Why contract metadata is refused.
#[derive(Debug, Clone, Copy, PartialEq, Eq, Structural)]
pub enum MetadataError {
    /// The `spec` field is not the standard's version text.
    SpecMismatch,
    /// Only one of `reference` and `reference_hash` is present.
    ReferenceMismatch,
    /// The reference hash is not 32 bytes long.
    ReferenceHashLength,
}

/// Metadata of the whole collection.
pub struct ContractMetadata {
    /// Version of the metadata standard.
    pub spec: String,
    /// Name of the collection.
    pub name: String,
    /// Ticker symbol of the collection.
    pub symbol: String,
    /// Data URL of an icon.
    pub icon: Option<String>,
    /// Gateway under which token media are found.
    pub base_uri: Option<String>,
    /// URL of a JSON file with more information.
    pub reference: Option<String>,
    /// SHA-256 hash of the reference file.
    pub reference_hash: Option<Vec<u8>>,
}

impl ContractMetadata {
    /// The first rule of the metadata standard that this metadata breaks, if any.
    pub open spec fn metadata_error(&self) -> Option<MetadataError> {
        if self.spec@ != metadata_spec_text() {
            Some(MetadataError::SpecMismatch)
        } else if (self.reference is Some) != (self.reference_hash is Some) {
            Some(MetadataError::ReferenceMismatch)
        } else if self.reference_hash matches Some(h) && h@.len() != 32 {
            Some(MetadataError::ReferenceHashLength)
        } else {
            None
        }
    }

    /// Checks the metadata against the standard: `Ok` exactly when no rule is
    /// broken, else the first broken rule.
    pub fn assert_valid(&self) -> (r: Result<(), MetadataError>)
        ensures
            r == (match self.metadata_error() {
                Some(e) => Err::<(), MetadataError>(e),
                None => Ok(()),
            }),
            r is Ok ==> self.spec@ == metadata_spec_text() && (self.reference is Some) == (
            self.reference_hash is Some) && (self.reference_hash matches Some(h) ==> h@.len() == 32),
            (self.reference is Some) != (self.reference_hash is Some) ==> r is Err,
    {
        if self.spec != standard_spec() {
            return Err(MetadataError::SpecMismatch);
        }
        if self.reference.is_some() != self.reference_hash.is_some() {
            return Err(MetadataError::ReferenceMismatch);
        }
        if let Some(h) = &self.reference_hash {
            if h.len() != 32 {
                return Err(MetadataError::ReferenceHashLength);
            }
        }
        Ok(())
    }
}

/// Metadata written into each minted token.
pub struct TokenMetadataFields {
    /// Title, `Nephilim#` followed by the token id.
    pub title: String,
    /// Description shared by all tokens.
    pub description: String,
    /// Media file, the token id followed by `.gif`.
    pub media: String,
    /// Block timestamp of the mint, in decimal.
    pub issued_at: String,
    /// Reference file, the token id followed by `.json`.
    pub reference: String,
}

} // verus!
