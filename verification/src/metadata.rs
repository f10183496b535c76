//! What the staking logic reads of an NFT's token-metadata account: the mint
//! it describes and its creators, decoded by the Metaplex metadata crate.
use vstd::prelude::*;
use crate::state::Address;
use borsh::BorshDeserialize;
use mpl_token_metadata::state::Metadata;

verus! {

/// One creator entry of the metadata: its address and whether it signed.
#[derive(Clone, Copy, Debug)]
pub struct CreatorInfo {
    pub address: Address,
    pub verified: bool,
}

/// The fields of a token-metadata account that the staking logic reads.
#[derive(Debug)]
pub struct NftMetadata {
    pub mint: Address,
    pub creators: Option<Vec<CreatorInfo>>,
}

/// The mathematical value of `NftMetadata`.
pub struct NftMetadataView {
    pub mint: Address,
    pub creators: Option<Seq<CreatorInfo>>,
}

impl View for NftMetadata {
    type V = NftMetadataView;

    open spec fn view(&self) -> NftMetadataView {
        NftMetadataView {
            mint: self.mint,
            creators: match self.creators {
                Some(v) => Some(v@),
                None => None,
            },
        }
    }
}

/// What the metadata decoder yields for the given account bytes: `None` when
/// they do not decode.
pub uninterp spec fn decoded_metadata(data: Seq<u8>) -> Option<NftMetadataView>;

/// Decodes token-metadata account bytes with the Borsh decoder of
/// `mpl_token_metadata::state::Metadata` (`BorshDeserialize::deserialize` on a
/// cursor over the bytes; trailing bytes are ignored), keeping the mint and
/// each creator's address and `verified` flag. The contract claims that the
/// outcome is a function of the bytes, named `decoded_metadata`, and that a
/// successful decode reads a prefix of the bytes: the decoder reads the key,
/// the update authority, the mint, the data (with the creators), the two
/// flags and the edition nonce strictly from the front of the cursor, and the
/// later optional fields fall back to `None` when they do not decode, so
/// bytes that follow (such as the zero padding of a metadata account) change
/// neither the outcome nor the mint and creators. What `decoded_metadata` is
/// on given bytes is left to the outside decoder.
#[verifier::external_body]
pub(crate) fn decode_metadata(data: &[u8]) -> (r: Option<NftMetadata>)
    ensures
        match r {
            Some(m) => decoded_metadata(data@) == Some(m@),
            None => decoded_metadata(data@) is None,
        },
        r is Some ==> forall|pad: Seq<u8>|
            #[trigger] decoded_metadata(data@ + pad) == decoded_metadata(data@),
{
    match Metadata::deserialize(&mut &data[..]) {
        Ok(md) => Some(NftMetadata {
            mint: Address { bytes: md.mint.to_bytes() },
            creators: md.data.creators.map(|cs| cs.iter().map(|c| CreatorInfo {
                address: Address { bytes: c.address.to_bytes() },
                verified: c.verified,
            }).collect()),
        }),
        Err(_) => None,
    }
}

} // verus!
