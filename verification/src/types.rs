//! The data that the services share: adapters, contents and users.
use vstd::prelude::*;
use crate::text::same_text;

verus! {

/// The kinds of storage.
#[derive(Debug, Clone, Copy, PartialEq, Eq, Structural)]
pub enum AdapterType {
    AwsS3,
    ChannelManager,
    Cdn,
    AwsEfs,
}

/// A pull zone that serves contents.
#[derive(Debug)]
pub struct CdnConfig {
    pub api_key: Option<String>,
    pub use_authentication: bool,
    pub pull_zone_name: String,
    pub domain: Option<String>,
    pub pull_zone_id: String,
    pub alias_enabled: bool,
}

pub struct CdnConfigView {
    pub api_key: Option<Seq<char>>,
    pub use_authentication: bool,
    pub pull_zone_name: Seq<char>,
    pub domain: Option<Seq<char>>,
    pub pull_zone_id: Seq<char>,
    pub alias_enabled: bool,
}

impl DeepView for CdnConfig {
    type V = CdnConfigView;

    open spec fn deep_view(&self) -> CdnConfigView {
        CdnConfigView {
            api_key: self.api_key.deep_view(),
            use_authentication: self.use_authentication,
            pull_zone_name: self.pull_zone_name@,
            domain: self.domain.deep_view(),
            pull_zone_id: self.pull_zone_id@,
            alias_enabled: self.alias_enabled,
        }
    }
}

/// A bucket that stores contents.
#[derive(Debug)]
pub struct AwsS3Config {
    pub app_name: String,
    pub region: String,
    pub bucket_name: String,
    pub verify_pending_on_read: Option<bool>,
}

pub struct AwsS3ConfigView {
    pub app_name: Seq<char>,
    pub region: Seq<char>,
    pub bucket_name: Seq<char>,
    pub verify_pending_on_read: Option<bool>,
}

impl DeepView for AwsS3Config {
    type V = AwsS3ConfigView;

    open spec fn deep_view(&self) -> AwsS3ConfigView {
        AwsS3ConfigView {
            app_name: self.app_name@,
            region: self.region@,
            bucket_name: self.bucket_name@,
            verify_pending_on_read: self.verify_pending_on_read,
        }
    }
}

/// The one channel manager there is.
#[derive(Debug, Clone, Copy, PartialEq, Eq, Structural)]
pub struct ChannelManagerConfig {}

/// The one file system there is.
#[derive(Debug, Clone, Copy, PartialEq, Eq, Structural)]
pub struct AwsEfsConfig {}

/// The configuration of an adapter.
#[derive(Debug)]
pub enum AdapterConfig {
    AwsS3(AwsS3Config),
    ChannelManager(ChannelManagerConfig),
    Cdn(CdnConfig),
    AwsEfs(AwsEfsConfig),
}

pub enum AdapterConfigView {
    AwsS3(AwsS3ConfigView),
    ChannelManager,
    Cdn(CdnConfigView),
    AwsEfs,
}

impl DeepView for AdapterConfig {
    type V = AdapterConfigView;

    open spec fn deep_view(&self) -> AdapterConfigView {
        match self {
            AdapterConfig::AwsS3(config) => AdapterConfigView::AwsS3(config.deep_view()),
            AdapterConfig::ChannelManager(_) => AdapterConfigView::ChannelManager,
            AdapterConfig::Cdn(config) => AdapterConfigView::Cdn(config.deep_view()),
            AdapterConfig::AwsEfs(_) => AdapterConfigView::AwsEfs,
        }
    }
}

impl Clone for CdnConfig {
    fn clone(&self) -> (copy: Self)
        ensures
            copy.deep_view() == self.deep_view(),
    {
        CdnConfig {
            api_key: copy_text(&self.api_key),
            use_authentication: self.use_authentication,
            pull_zone_name: self.pull_zone_name.clone(),
            domain: copy_text(&self.domain),
            pull_zone_id: self.pull_zone_id.clone(),
            alias_enabled: self.alias_enabled,
        }
    }
}

impl Clone for AwsS3Config {
    fn clone(&self) -> (copy: Self)
        ensures
            copy.deep_view() == self.deep_view(),
    {
        AwsS3Config {
            app_name: self.app_name.clone(),
            region: self.region.clone(),
            bucket_name: self.bucket_name.clone(),
            verify_pending_on_read: self.verify_pending_on_read,
        }
    }
}

impl Clone for AdapterConfig {
    fn clone(&self) -> (copy: Self)
        ensures
            copy.deep_view() == self.deep_view(),
    {
        match self {
            AdapterConfig::AwsS3(config) => AdapterConfig::AwsS3(config.clone()),
            AdapterConfig::ChannelManager(_) => AdapterConfig::ChannelManager(
                ChannelManagerConfig {  },
            ),
            AdapterConfig::Cdn(config) => AdapterConfig::Cdn(config.clone()),
            AdapterConfig::AwsEfs(_) => AdapterConfig::AwsEfs(AwsEfsConfig {  }),
        }
    }
}

/// A copy of an optional text.
pub fn copy_text(text: &Option<String>) -> (copy: Option<String>)
    ensures
        copy.deep_view() == text.deep_view(),
{
    match text {
        Some(text) => Some(text.clone()),
        None => None,
    }
}

/// Whether two optional texts are the same.
pub fn same_option(a: &Option<String>, b: &Option<String>) -> (same: bool)
    ensures
        same == (a.deep_view() == b.deep_view()),
{
    match (a, b) {
        (Some(a), Some(b)) => same_text(a.as_str(), b.as_str()),
        (None, None) => true,
        _ => false,
    }
}

/// What is known of a content without its bytes.
#[derive(Debug)]
pub struct ContentHeadInfo {
    pub mime_type: String,
    pub size: u64,
    pub filename: Option<String>,
}

pub struct HeadInfoView {
    pub mime_type: Seq<char>,
    pub size: u64,
    pub filename: Option<Seq<char>>,
}

impl DeepView for ContentHeadInfo {
    type V = HeadInfoView;

    open spec fn deep_view(&self) -> HeadInfoView {
        HeadInfoView {
            mime_type: self.mime_type@,
            size: self.size,
            filename: self.filename.deep_view(),
        }
    }
}

/// How an image is to be delivered.
#[derive(Debug)]
pub struct RetrieveProperties {
    pub width: Option<u32>,
    pub height: Option<u32>,
    pub aspect_ratio: Option<String>,
}

pub struct RetrievePropertiesView {
    pub width: Option<u32>,
    pub height: Option<u32>,
    pub aspect_ratio: Option<Seq<char>>,
}

impl DeepView for RetrieveProperties {
    type V = RetrievePropertiesView;

    open spec fn deep_view(&self) -> RetrievePropertiesView {
        RetrievePropertiesView {
            width: self.width,
            height: self.height,
            aspect_ratio: self.aspect_ratio.deep_view(),
        }
    }
}

/// Who calls.
#[derive(Debug)]
pub struct CallContext {
    pub org_id: String,
}

/// What an identity provider knows of a user.
#[derive(Debug)]
pub struct AuthUserData {
    pub user_id: String,
    pub email: String,
    pub department: Option<String>,
    pub first_name: Option<String>,
    pub last_name: Option<String>,
    pub last_login: Option<String>,
    pub picture: Option<String>,
    pub username: Option<String>,
}

pub struct UserView {
    pub user_id: Seq<char>,
    pub email: Seq<char>,
    pub department: Option<Seq<char>>,
    pub first_name: Option<Seq<char>>,
    pub last_name: Option<Seq<char>>,
    pub last_login: Option<Seq<char>>,
    pub picture: Option<Seq<char>>,
    pub username: Option<Seq<char>>,
}

impl DeepView for AuthUserData {
    type V = UserView;

    open spec fn deep_view(&self) -> UserView {
        UserView {
            user_id: self.user_id@,
            email: self.email@,
            department: self.department.deep_view(),
            first_name: self.first_name.deep_view(),
            last_name: self.last_name.deep_view(),
            last_login: self.last_login.deep_view(),
            picture: self.picture.deep_view(),
            username: self.username.deep_view(),
        }
    }
}

/// Texts under distinct keys.
#[derive(Debug)]
pub struct Metadata {
    entries: Vec<(String, String)>,
}

/// No two entries have the same key.
pub open spec fn unique_keys(entries: Seq<(Seq<char>, Seq<char>)>) -> bool {
    forall|i: int, j: int|
        0 <= i < j < entries.len() ==> (#[trigger] entries[i]).0 != (#[trigger] entries[j]).0
}

impl Metadata {
    #[verifier::type_invariant]
    spec fn well_formed(&self) -> bool {
        unique_keys(self.entries.deep_view())
    }
}

/// The position of a key.
pub open spec fn key_at(entries: Seq<(Seq<char>, Seq<char>)>, key: Seq<char>, at: int) -> bool {
    0 <= at < entries.len() && entries[at].0 == key
}

/// The entries with one added, or replaced where its key is there already.
pub open spec fn entries_with(
    entries: Seq<(Seq<char>, Seq<char>)>,
    key: Seq<char>,
    value: Seq<char>,
) -> Seq<(Seq<char>, Seq<char>)> {
    if exists|at: int| key_at(entries, key, at) {
        entries.update(choose|at: int| key_at(entries, key, at), (key, value))
    } else {
        entries.push((key, value))
    }
}

impl DeepView for Metadata {
    type V = Seq<(Seq<char>, Seq<char>)>;

    closed spec fn deep_view(&self) -> Seq<(Seq<char>, Seq<char>)> {
        self.entries.deep_view()
    }
}

impl Metadata {
    /// No texts.
    pub fn new() -> (metadata: Self)
        ensures
            metadata.deep_view() == Seq::<(Seq<char>, Seq<char>)>::empty(),
    {
        let entries: Vec<(String, String)> = Vec::new();
        assert(entries.deep_view() =~= seq![]);
        Metadata { entries }
    }

    /// Adds a text, or replaces the one under the same key.
    pub fn insert(&mut self, key: &str, value: &str)
        ensures
            final(self).deep_view() == entries_with(old(self).deep_view(), key@, value@),
    {
        proof {
            use_type_invariant(&*self);
        }
        let ghost before = self.entries.deep_view();
        let mut entries: Vec<(String, String)> = Vec::new();
        std::mem::swap(&mut entries, &mut self.entries);
        let mut i: usize = 0;
        while i < entries.len()
            invariant
                before == old(self).deep_view(),
                entries.deep_view() == before,
                unique_keys(before),
                i <= entries@.len(),
                forall|j: int| 0 <= j < i ==> (#[trigger] before[j]).0 != key@,
            decreases entries@.len() - i,
        {
            assert(before[i as int].0 == entries@[i as int].0@);
            if same_text(entries[i].0.as_str(), key) {
                entries.set(i, (key.to_string(), value.to_string()));
                proof {
                    assert(key_at(before, key@, i as int));
                    let at = choose|at: int| key_at(before, key@, at);
                    assert(at == i) by {
                        if at < i {
                            assert(before[at].0 != before[i as int].0);
                        } else if at > i {
                            assert(before[i as int].0 != before[at].0);
                        }
                    }
                    assert(entries.deep_view() =~= before.update(i as int, (key@, value@)));
                }
                self.entries = entries;
                return;
            }
            i += 1;
        }
        entries.push((key.to_string(), value.to_string()));
        proof {
            assert(forall|at: int| !key_at(before, key@, at));
            assert(entries.deep_view() =~= before.push((key@, value@)));
        }
        self.entries = entries;
    }

    /// The number of texts.
    pub fn len(&self) -> (len: usize)
        ensures
            len == self.deep_view().len(),
    {
        self.entries.len()
    }

    /// The texts with their keys, which are distinct.
    pub fn pairs(&self) -> (pairs: &Vec<(String, String)>)
        ensures
            pairs.deep_view() == self.deep_view(),
            unique_keys(pairs.deep_view()),
    {
        proof {
            use_type_invariant(self);
        }
        &self.entries
    }
}

impl Clone for Metadata {
    fn clone(&self) -> (copy: Self)
        ensures
            copy.deep_view() == self.deep_view(),
    {
        proof {
            use_type_invariant(self);
        }
        let mut entries: Vec<(String, String)> = Vec::new();
        let mut i: usize = 0;
        while i < self.entries.len()
            invariant
                i <= self.entries@.len(),
                entries.deep_view() == self.entries.deep_view().take(i as int),
            decreases self.entries@.len() - i,
        {
            let ghost known = entries.deep_view();
            entries.push((self.entries[i].0.clone(), self.entries[i].1.clone()));
            i += 1;
            assert(entries.deep_view() =~= known.push(self.entries.deep_view()[i - 1]));
            assert(entries.deep_view() =~= self.entries.deep_view().take(i as int));
        }
        assert(entries.deep_view() =~= self.entries.deep_view());
        Metadata { entries }
    }
}

/// What is recorded under a key is the text that was recorded last, once and in the place of the
/// first; what is recorded under other keys stays as it is, and a new key comes last.
pub proof fn law_the_last_text_of_a_key_counts(
    entries: Seq<(Seq<char>, Seq<char>)>,
    key: Seq<char>,
    value: Seq<char>,
)
    requires
        unique_keys(entries),
    ensures
        ({
            let recorded = entries_with(entries, key, value);
            &&& unique_keys(recorded)
            &&& recorded.contains((key, value))
            &&& forall|i: int|
                0 <= i < entries.len() ==> (#[trigger] recorded[i]).0 == entries[i].0 && (
                entries[i].0 != key ==> recorded[i].1 == entries[i].1)
            &&& recorded.len() == entries.len() || (recorded.len() == entries.len() + 1
                && recorded.last() == (key, value))
            &&& recorded.len() == entries.len() <==> exists|i: int|
                0 <= i < entries.len() && (#[trigger] entries[i]).0 == key
        }),
{
    let recorded = entries_with(entries, key, value);
    if exists|at: int| key_at(entries, key, at) {
        let at = choose|at: int| key_at(entries, key, at);
        assert(recorded[at] == (key, value));
        assert(entries[at].0 == key);
    } else {
        assert(recorded[entries.len() as int] == (key, value));
        assert forall|i: int| 0 <= i < entries.len() implies (#[trigger] entries[i]).0 != key by {
            assert(!key_at(entries, key, i));
        }
    }
}

} // verus!
