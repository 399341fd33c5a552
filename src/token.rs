use vstd::prelude::*;
use crate::json::Json;
use crate::metadata::{TokenMetadata, MetadataModel, metadata_of, opt_metadata_view};

verus! {

/// A minted non-fungible token as the token store records it.
#[derive(Clone, Debug)]
pub struct Token {
    pub contract_id: String,
    pub token_id: String,
    pub metadata: Option<TokenMetadata>,
}

pub struct TokenModel {
    pub contract_id: Seq<char>,
    pub token_id: Seq<char>,
    pub metadata: Option<MetadataModel>,
}

impl View for Token {
    type V = TokenModel;

    open spec fn view(&self) -> TokenModel {
        TokenModel {
            contract_id: self.contract_id@,
            token_id: self.token_id@,
            metadata: opt_metadata_view(self.metadata),
        }
    }
}

/// One entry of the `tokens_to_mint` list of a mint call: its `metadata`
/// member, if it has one.
#[derive(Debug)]
pub struct ArgsJsonTokenMint<'a> {
    pub token_metadata: Option<&'a Json>,
}

/// The `metadata` members of the entries of `args_json.tokens_to_mint`, one
/// for each entry; no entries where that path is not an array.
pub open spec fn mint_entries(args: Json) -> Seq<Option<Json>> {
    match args.field("args_json"@) {
        Some(inner) => match inner.field("tokens_to_mint"@) {
            Some(Json::Array(items)) => items@.map_values(|x: Json| x.field("metadata"@)),
            _ => Seq::empty(),
        },
        None => Seq::empty(),
    }
}

/// The metadata of the token at position `i` of a mint: that of entry `i`
/// of the call's list, and none where the list is shorter or the entry holds
/// no readable metadata.
pub open spec fn metadata_at(args: Json, i: int) -> Option<MetadataModel> {
    let entries = mint_entries(args);
    if 0 <= i < entries.len() {
        match entries[i] {
            Some(j) => metadata_of(j),
            None => None,
        }
    } else {
        None
    }
}

/// The per-token entries of a mint call's arguments.
pub fn get_token_args(args: &Json) -> (r: Vec<ArgsJsonTokenMint<'_>>)
    ensures
        r@.len() == mint_entries(*args).len(),
        forall|i: int|
            0 <= i < r@.len() ==> match (#[trigger] r@[i]).token_metadata {
                Some(m) => mint_entries(*args)[i] == Some(*m),
                None => mint_entries(*args)[i] is None,
            },
{
    let mut tokens: Vec<ArgsJsonTokenMint> = Vec::new();
    let inner = match args.get("args_json") {
        Some(inner) => inner,
        None => return tokens,
    };
    let items = match inner.get("tokens_to_mint") {
        Some(Json::Array(items)) => items,
        _ => return tokens,
    };
    let n = items.len();
    let mut i: usize = 0;
    while i < n
        invariant
            n == items@.len(),
            i <= n,
            tokens@.len() == i,
            mint_entries(*args) == items@.map_values(|x: Json| x.field("metadata"@)),
            forall|k: int|
                0 <= k < i ==> match (#[trigger] tokens@[k]).token_metadata {
                    Some(m) => items@[k].field("metadata"@) == Some(*m),
                    None => items@[k].field("metadata"@) is None,
                },
        decreases n - i,
    {
        tokens.push(ArgsJsonTokenMint { token_metadata: items[i].get("metadata") });
        i = i + 1;
    }
    tokens
}

/// The metadata of the token at position `i` of a mint, read from the
/// entries of the call's arguments.
pub(crate) fn metadata_for_index(
    entries: &Vec<ArgsJsonTokenMint<'_>>,
    i: usize,
    Ghost(args): Ghost<Json>,
) -> (r: Option<TokenMetadata>)
    requires
        entries@.len() == mint_entries(args).len(),
        forall|k: int|
            0 <= k < entries@.len() ==> match (#[trigger] entries@[k]).token_metadata {
                Some(m) => mint_entries(args)[k] == Some(*m),
                None => mint_entries(args)[k] is None,
            },
    ensures
        opt_metadata_view(r) == metadata_at(args, i as int),
{
    if i < entries.len() {
        let e = &entries[i];
        assert(e == entries@[i as int]);
        TokenMetadata::from_json(e.token_metadata)
    } else {
        None
    }
}

} // verus!
