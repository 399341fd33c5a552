use vstd::prelude::*;
use crate::json::Json;
use crate::events::{opt_text, opt_view, take_opt_text};

verus! {

/// The metadata of a non-fungible token, as the mint call's arguments give it.
#[derive(Clone, Debug)]
pub struct TokenMetadata {
    pub title: Option<String>,
    pub description: Option<String>,
    pub media: Option<String>,
    pub media_hash: Option<String>,
    pub copies: Option<String>,
    pub rarity: Option<String>,
    pub nft_type: Option<String>,
    pub collection_name: Option<String>,
    pub issued_at: Option<String>,
    pub expires_at: Option<String>,
    pub starts_at: Option<String>,
    pub updated_at: Option<String>,
    pub extra: Option<String>,
    pub reference: Option<String>,
    pub reference_hash: Option<String>,
    pub game_id: Option<String>,
}

pub struct MetadataModel {
    pub title: Option<Seq<char>>,
    pub description: Option<Seq<char>>,
    pub media: Option<Seq<char>>,
    pub media_hash: Option<Seq<char>>,
    pub copies: Option<Seq<char>>,
    pub rarity: Option<Seq<char>>,
    pub nft_type: Option<Seq<char>>,
    pub collection_name: Option<Seq<char>>,
    pub issued_at: Option<Seq<char>>,
    pub expires_at: Option<Seq<char>>,
    pub starts_at: Option<Seq<char>>,
    pub updated_at: Option<Seq<char>>,
    pub extra: Option<Seq<char>>,
    pub reference: Option<Seq<char>>,
    pub reference_hash: Option<Seq<char>>,
    pub game_id: Option<Seq<char>>,
}

impl View for TokenMetadata {
    type V = MetadataModel;

    open spec fn view(&self) -> MetadataModel {
        MetadataModel {
            title: opt_view(self.title),
            description: opt_view(self.description),
            media: opt_view(self.media),
            media_hash: opt_view(self.media_hash),
            copies: opt_view(self.copies),
            rarity: opt_view(self.rarity),
            nft_type: opt_view(self.nft_type),
            collection_name: opt_view(self.collection_name),
            issued_at: opt_view(self.issued_at),
            expires_at: opt_view(self.expires_at),
            starts_at: opt_view(self.starts_at),
            updated_at: opt_view(self.updated_at),
            extra: opt_view(self.extra),
            reference: opt_view(self.reference),
            reference_hash: opt_view(self.reference_hash),
            game_id: opt_view(self.game_id),
        }
    }
}

pub open spec fn opt_metadata_view(m: Option<TokenMetadata>) -> Option<MetadataModel> {
    match m {
        Some(x) => Some(x@),
        None => None,
    }
}

/// The metadata that a JSON value holds: an object whose metadata members
/// are each absent, null or a string.
pub open spec fn metadata_of(j: Json) -> Option<MetadataModel> {
    if j is Object && opt_text(j, "title"@, true) is Some && opt_text(j, "description"@, true) is Some && opt_text(j, "media"@, true) is Some && opt_text(j, "media_hash"@, true) is Some && opt_text(j, "copies"@, true) is Some && opt_text(j, "rarity"@, true) is Some && opt_text(j, "nft_type"@, true) is Some && opt_text(j, "collection_name"@, true) is Some && opt_text(j, "issued_at"@, true) is Some && opt_text(j, "expires_at"@, true) is Some && opt_text(j, "starts_at"@, true) is Some && opt_text(j, "updated_at"@, true) is Some && opt_text(j, "extra"@, true) is Some && opt_text(j, "reference"@, true) is Some && opt_text(j, "reference_hash"@, true) is Some && opt_text(j, "game_id"@, true) is Some {
        Some(
            MetadataModel {
                title: opt_text(j, "title"@, true).unwrap(),
                description: opt_text(j, "description"@, true).unwrap(),
                media: opt_text(j, "media"@, true).unwrap(),
                media_hash: opt_text(j, "media_hash"@, true).unwrap(),
                copies: opt_text(j, "copies"@, true).unwrap(),
                rarity: opt_text(j, "rarity"@, true).unwrap(),
                nft_type: opt_text(j, "nft_type"@, true).unwrap(),
                collection_name: opt_text(j, "collection_name"@, true).unwrap(),
                issued_at: opt_text(j, "issued_at"@, true).unwrap(),
                expires_at: opt_text(j, "expires_at"@, true).unwrap(),
                starts_at: opt_text(j, "starts_at"@, true).unwrap(),
                updated_at: opt_text(j, "updated_at"@, true).unwrap(),
                extra: opt_text(j, "extra"@, true).unwrap(),
                reference: opt_text(j, "reference"@, true).unwrap(),
                reference_hash: opt_text(j, "reference_hash"@, true).unwrap(),
                game_id: opt_text(j, "game_id"@, true).unwrap(),
            },
        )
    } else {
        None
    }
}

impl TokenMetadata {
    /// Reads token metadata from a JSON value; a missing or malformed value
    /// gives none.
    pub fn from_json(json: Option<&Json>) -> (r: Option<TokenMetadata>)
        ensures
            match json {
                Some(j) => opt_metadata_view(r) == metadata_of(*j),
                None => r is None,
            },
    {
        let j = match json {
            Some(j) => j,
            None => return None,
        };
        match j {
            Json::Object(_) => {},
            _ => return None,
        }
        let title = match take_opt_text(j, "title", true) {
            Some(t) => t,
            None => return None,
        };
        let description = match take_opt_text(j, "description", true) {
            Some(t) => t,
            None => return None,
        };
        let media = match take_opt_text(j, "media", true) {
            Some(t) => t,
            None => return None,
        };
        let media_hash = match take_opt_text(j, "media_hash", true) {
            Some(t) => t,
            None => return None,
        };
        let copies = match take_opt_text(j, "copies", true) {
            Some(t) => t,
            None => return None,
        };
        let rarity = match take_opt_text(j, "rarity", true) {
            Some(t) => t,
            None => return None,
        };
        let nft_type = match take_opt_text(j, "nft_type", true) {
            Some(t) => t,
            None => return None,
        };
        let collection_name = match take_opt_text(j, "collection_name", true) {
            Some(t) => t,
            None => return None,
        };
        let issued_at = match take_opt_text(j, "issued_at", true) {
            Some(t) => t,
            None => return None,
        };
        let expires_at = match take_opt_text(j, "expires_at", true) {
            Some(t) => t,
            None => return None,
        };
        let starts_at = match take_opt_text(j, "starts_at", true) {
            Some(t) => t,
            None => return None,
        };
        let updated_at = match take_opt_text(j, "updated_at", true) {
            Some(t) => t,
            None => return None,
        };
        let extra = match take_opt_text(j, "extra", true) {
            Some(t) => t,
            None => return None,
        };
        let reference = match take_opt_text(j, "reference", true) {
            Some(t) => t,
            None => return None,
        };
        let reference_hash = match take_opt_text(j, "reference_hash", true) {
            Some(t) => t,
            None => return None,
        };
        let game_id = match take_opt_text(j, "game_id", true) {
            Some(t) => t,
            None => return None,
        };
        Some(TokenMetadata {
            title,
            description,
            media,
            media_hash,
            copies,
            rarity,
            nft_type,
            collection_name,
            issued_at,
            expires_at,
            starts_at,
            updated_at,
            extra,
            reference,
            reference_hash,
            game_id,
        })
    }
}

} // verus!
