//! Item-side types: identifiers, attribute keys, page requests and the
//! data shapes they carry.

pub mod attr;
pub mod id;
pub mod key;
pub mod specs;
pub mod tag;

pub use id::ItemId;
pub use key::ItemKey;
pub use tag::Tag;
pub use tag::TagError;

use crate::market::MarketId;
use crate::media::MediaData;
use crate::store::StoreId;
use crate::store::StoreName;
use crate::unit::currency::Currency;
use attr::AttrIndexesResponse;
use attr::AttrKeys;
use attr::AttrRequest;
use vstd::prelude::*;

verus! {

/// Display name of an item.
pub type ItemName = String;

/// Type of the item.
#[derive(Debug, Clone, Copy, PartialEq, Eq, PartialOrd, Ord)]
pub enum ItemType {
    Physical,
    Digital,
}

/// Everything that addresses one item variant across canisters.
#[derive(Debug, Clone, PartialEq, Eq, Hash)]
pub struct IdentifiedItem {
    pub market_id: MarketId,
    pub store_id: StoreId,
    pub item_id: ItemId,
    pub attr_keys: AttrKeys,
}

/// Request for one item page.
#[derive(Debug, Clone, PartialEq, Eq, Hash)]
pub struct ItemPageRequest {
    pub market_id: MarketId,
    pub store_id: StoreId,
    pub request_to_store: ItemPageRequestToStoreCanister,
}

/// The part of an item page request the store canister answers.
#[derive(Debug, Clone, PartialEq, Eq, Hash)]
pub struct ItemPageRequestToStoreCanister {
    pub item_id: ItemId,
    pub attr: AttrRequest,
    pub currency: Currency,
}

/// The static part of an item page, market name included.
#[derive(Debug, Clone, PartialEq, Default)]
pub struct ItemPageStaticData {
    pub market_name: String,
    pub data_from_store: ItemPageStaticDataFromStoreCanister,
}

/// The static part of an item page as the store canister reports it.
#[derive(Debug, Clone, PartialEq, Default)]
pub struct ItemPageStaticDataFromStoreCanister {
    pub item_name: ItemName,
    pub descriptions: Vec<String>,
    pub tags: Vec<Tag>,
    pub attrs: AttrIndexesResponse,
    pub store_name: StoreName,
}

/// Why a store canister rejects an item page request.
#[derive(Debug, Clone, Copy, PartialEq, Eq, PartialOrd, Ord)]
pub enum ItemPageFromStoreErrorCode {
    ItemNotFound,
    NoAvailableAttr,
}

/// A media attachment with its caption.
#[derive(Debug, Clone, PartialEq, Eq, Hash)]
pub struct MediaDataWithCaption {
    pub data: MediaData,
    pub caption: String,
}

impl MediaDataWithCaption {
    /// Start building a captioned attachment.
    pub fn builder() -> (r: MediaDataWithCaptionBuilder)
        ensures
            r.data is None,
            r.caption is None,
    {
        MediaDataWithCaptionBuilder { data: None, caption: None }
    }
}

/// Builder collecting the parts of a [`MediaDataWithCaption`].
pub struct MediaDataWithCaptionBuilder {
    pub data: Option<MediaData>,
    pub caption: Option<String>,
}

impl MediaDataWithCaptionBuilder {
    /// Set the attachment.
    pub fn data(self, data: MediaData) -> (r: Self)
        ensures
            r.data == Some(data),
            r.caption == self.caption,
    {
        MediaDataWithCaptionBuilder { data: Some(data), ..self }
    }

    /// Set the caption.
    pub fn caption(self, caption: &str) -> (r: Self)
        ensures
            r.caption matches Some(c) && c@ == caption@,
            r.data == self.data,
    {
        MediaDataWithCaptionBuilder { caption: Some(caption.to_owned()), ..self }
    }

    /// Finish the captioned attachment; the caller owes the attachment.
    /// A missing caption becomes the empty string.
    pub fn build(self) -> (r: MediaDataWithCaption)
        requires
            self.data is Some,
        ensures
            Some(r.data) == self.data,
            match self.caption {
                Some(c) => r.caption == c,
                None => r.caption@ == Seq::<char>::empty(),
            },
    {
        let data = match self.data {
            Some(d) => d,
            None => unreached(),
        };
        let caption = match self.caption {
            Some(c) => c,
            None => String::new(),
        };
        MediaDataWithCaption { data, caption }
    }
}

/// The stable keys of one item variant inside a market.
#[derive(Debug, Clone, PartialEq, Eq, Hash)]
pub struct ItemCoreKeys {
    pub item_id: ItemId,
    pub attr_keys: AttrKeys,
}

/// Request for the changing parts of one item variant.
#[derive(Debug, Clone, PartialEq, Eq, Hash)]
pub struct ItemCoreDataRequest {
    pub item: ItemCoreKeys,
    pub currency: Currency,
}

} // verus!
