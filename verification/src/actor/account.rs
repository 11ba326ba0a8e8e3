//! Account page data and profile update requests.

use vstd::prelude::*;

verus! {

/// Gateway prefix used to turn a content id into a fetchable URL.
pub open spec fn ipfs_gateway() -> Seq<char> {
    "https://ipfs.io/ipfs/"@
}

/// The account page payload, by account kind.
#[derive(Debug, Clone)]
pub enum AccountPageResponse {
    User(UserAccountPageResponse),
}

/// Account page data of a user.
#[derive(Debug, Clone)]
pub struct UserAccountPageResponse {
    pub name: String,
    pub birth_name: String,
    pub mail_address: String,
    pub image: AccountImage,
}

/// Request to replace the editable parts of a user profile.
#[derive(Debug, Clone)]
pub struct SetUserProfileRequest {
    pub name: String,
    pub birth_name: String,
    pub mail_address: String,
    pub image: AccountImage,
}

/// An account picture: absent, a content id on the gateway, or raw bytes.
#[derive(Debug, Clone)]
pub enum AccountImage {
    NoImage,
    CID(String),
    BLOB(Vec<u8>),
}

/// Equality of two account images, by content.
pub open spec fn image_eq_spec(a: &AccountImage, b: &AccountImage) -> bool {
    match *a {
        AccountImage::NoImage => *b matches AccountImage::NoImage,
        AccountImage::CID(x) => *b matches AccountImage::CID(y) && x@ == y@,
        AccountImage::BLOB(x) => *b matches AccountImage::BLOB(y) && x@ == y@,
    }
}

impl AccountImage {
    /// A content-equal copy of the image.
    pub fn duplicate(&self) -> (r: Self)
        ensures
            image_eq_spec(&r, self),
    {
        match self {
            AccountImage::NoImage => AccountImage::NoImage,
            AccountImage::CID(cid) => AccountImage::CID(cid.clone()),
            AccountImage::BLOB(bytes) => AccountImage::BLOB(bytes.clone()),
        }
    }

    /// URL the image can be fetched from: the gateway address for a content
    /// id, and the empty string otherwise.
    pub fn to_url(&self) -> (r: String)
        ensures
            match *self {
                AccountImage::CID(ref cid) => r@ == ipfs_gateway() + cid@,
                _ => r@ == Seq::<char>::empty(),
            },
    {
        match self {
            AccountImage::NoImage => String::new(),
            AccountImage::CID(cid) => String::from_str("https://ipfs.io/ipfs/").concat(
                cid.as_str(),
            ),
            AccountImage::BLOB(_) => String::new(),
        }
    }

    /// Whether no image is set.
    pub fn is_none(&self) -> (r: bool)
        ensures
            r == (*self matches AccountImage::NoImage),
    {
        match self {
            AccountImage::NoImage => true,
            _ => false,
        }
    }
}

impl PartialEq for AccountImage {
    /// Images are equal when they are the same kind with equal content.
    fn eq(&self, other: &Self) -> (r: bool) {
        match (self, other) {
            (AccountImage::NoImage, AccountImage::NoImage) => true,
            (AccountImage::CID(a), AccountImage::CID(b)) => a.eq(b),
            (AccountImage::BLOB(a), AccountImage::BLOB(b)) => {
                let r = a == b;
                proof {
                    assert(r == (a@ =~= b@));
                }
                r
            },
            _ => false,
        }
    }
}

impl vstd::std_specs::cmp::PartialEqSpecImpl for AccountImage {
    open spec fn obeys_eq_spec() -> bool {
        true
    }

    open spec fn eq_spec(&self, other: &Self) -> bool {
        image_eq_spec(self, other)
    }
}

impl UserAccountPageResponse {
    /// Replace the editable fields with the ones of the request.
    pub fn update_with_request(&mut self, request: &SetUserProfileRequest)
        ensures
            final(self).name@ == request.name@,
            final(self).birth_name@ == request.birth_name@,
            final(self).mail_address@ == request.mail_address@,
            image_eq_spec(&final(self).image, &request.image),
    {
        self.name = request.name.clone();
        self.birth_name = request.birth_name.clone();
        self.mail_address = request.mail_address.clone();
        self.image = request.image.duplicate();
    }
}

impl SetUserProfileRequest {
    /// Whether applying this request to an account page would change
    /// nothing.
    pub fn equal_to_response(&self, response: UserAccountPageResponse) -> (r: bool)
        ensures
            r == (self.name@ == response.name@ && self.birth_name@ == response.birth_name@
                && self.mail_address@ == response.mail_address@ && image_eq_spec(
                &self.image,
                &response.image,
            )),
    {
        self.name.eq(&response.name) && self.birth_name.eq(&response.birth_name)
            && self.mail_address.eq(&response.mail_address) && self.image.eq(&response.image)
    }
}

impl From<UserAccountPageResponse> for SetUserProfileRequest {
    /// A request that would re-submit the page unchanged.
    fn from(response: UserAccountPageResponse) -> (r: Self) {
        SetUserProfileRequest {
            name: response.name,
            birth_name: response.birth_name,
            mail_address: response.mail_address,
            image: response.image,
        }
    }
}

impl vstd::std_specs::convert::FromSpecImpl<UserAccountPageResponse> for SetUserProfileRequest {
    open spec fn obeys_from_spec() -> bool {
        true
    }

    open spec fn from_spec(response: UserAccountPageResponse) -> Self {
        SetUserProfileRequest {
            name: response.name,
            birth_name: response.birth_name,
            mail_address: response.mail_address,
            image: response.image,
        }
    }
}

} // verus!
