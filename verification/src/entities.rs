//! The settings of deployments, builds, builders and repos: for each what
//! the gateway itself reads of them.
use vstd::prelude::*;
use crate::resource::{Duplicate, Resource, ResourceListItem, ResourceListItemView, ResourceView};
use crate::server::{or_base, text_of, text_or};

verus! {

/// A deployment as the store holds it.
pub type Deployment = Resource<DeploymentConfig, ()>;

/// A [`Deployment`] as plain values.
pub type DeploymentView = ResourceView<DeploymentConfigView, ()>;

/// A build as the store holds it.
pub type Build = Resource<BuildConfig, ()>;

/// A [`Build`] as plain values.
pub type BuildView = ResourceView<BuildConfigView, ()>;

/// A builder as the store holds it.
pub type Builder = Resource<BuilderConfig, ()>;

/// A [`Builder`] as plain values.
pub type BuilderView = ResourceView<BuilderConfigView, ()>;

/// A repo as the store holds it.
pub type Repo = Resource<RepoConfig, ()>;

/// A [`Repo`] as plain values.
pub type RepoView = ResourceView<RepoConfigView, ()>;

/// A resource without anything known of it, as a listing shows it.
pub type PlainListItem = ResourceListItem<()>;

/// A [`PlainListItem`] as plain values.
pub type PlainListItemView = ResourceListItemView<()>;

/// The settings of a deployment: the server it runs on and the image it runs.
#[derive(Debug, PartialEq, Eq)]
pub struct DeploymentConfig {
    pub server_id: String,
    pub image: String,
}

/// A [`DeploymentConfig`] as plain values.
pub struct DeploymentConfigView {
    pub server_id: Seq<char>,
    pub image: Seq<char>,
}

/// Settings of a deployment of which any may be left out.
#[derive(Debug, PartialEq, Eq)]
pub struct PartialDeploymentConfig {
    pub server_id: Option<String>,
    pub image: Option<String>,
}

/// A [`PartialDeploymentConfig`] as plain values.
pub struct PartialDeploymentConfigView {
    pub server_id: Option<Seq<char>>,
    pub image: Option<Seq<char>>,
}

impl View for DeploymentConfig {
    type V = DeploymentConfigView;

    open spec fn view(&self) -> DeploymentConfigView {
        DeploymentConfigView { server_id: self.server_id@, image: self.image@ }
    }
}

impl View for PartialDeploymentConfig {
    type V = PartialDeploymentConfigView;

    open spec fn view(&self) -> PartialDeploymentConfigView {
        PartialDeploymentConfigView {
            server_id: text_of(self.server_id),
            image: text_of(self.image),
        }
    }
}

impl Clone for DeploymentConfig {
    fn clone(&self) -> (c: DeploymentConfig)
        ensures
            c == *self,
    {
        DeploymentConfig { server_id: self.server_id.clone(), image: self.image.clone() }
    }
}

impl Duplicate for DeploymentConfig {
    fn duplicate(&self) -> (copy: DeploymentConfig) {
        self.clone()
    }
}

impl DeploymentConfigView {
    /// The settings of a deployment for which nothing was said.
    pub open spec fn defaults() -> DeploymentConfigView {
        DeploymentConfigView { server_id: Seq::empty(), image: Seq::empty() }
    }

    /// `self` with each setting that `patch` gives put in place of its own.
    pub open spec fn merged(self, patch: PartialDeploymentConfigView) -> DeploymentConfigView {
        DeploymentConfigView {
            server_id: or_base(patch.server_id, self.server_id),
            image: or_base(patch.image, self.image),
        }
    }
}

impl DeploymentConfig {
    /// The settings of a deployment for which nothing was said.
    pub fn defaults() -> (c: DeploymentConfig)
        ensures
            c@ == DeploymentConfigView::defaults(),
    {
        DeploymentConfig { server_id: String::new(), image: String::new() }
    }

    /// `base` with each setting that `patch` gives put in place of its own.
    pub fn apply_partial(base: DeploymentConfig, patch: PartialDeploymentConfig) -> (c:
        DeploymentConfig)
        ensures
            c@ == base@.merged(patch@),
    {
        DeploymentConfig {
            server_id: text_or(patch.server_id, base.server_id),
            image: text_or(patch.image, base.image),
        }
    }

    /// The settings that `patch` gives, with the default for each one that
    /// it leaves out.
    pub fn from_partial(patch: PartialDeploymentConfig) -> (c: DeploymentConfig)
        ensures
            c@ == DeploymentConfigView::defaults().merged(patch@),
    {
        DeploymentConfig::apply_partial(DeploymentConfig::defaults(), patch)
    }
}

/// The settings of a build: the builder that runs it and the repo it builds.
#[derive(Debug, PartialEq, Eq)]
pub struct BuildConfig {
    pub builder_id: String,
    pub repo: String,
}

/// A [`BuildConfig`] as plain values.
pub struct BuildConfigView {
    pub builder_id: Seq<char>,
    pub repo: Seq<char>,
}

/// Settings of a build of which any may be left out.
#[derive(Debug, PartialEq, Eq)]
pub struct PartialBuildConfig {
    pub builder_id: Option<String>,
    pub repo: Option<String>,
}

/// A [`PartialBuildConfig`] as plain values.
pub struct PartialBuildConfigView {
    pub builder_id: Option<Seq<char>>,
    pub repo: Option<Seq<char>>,
}

impl View for BuildConfig {
    type V = BuildConfigView;

    open spec fn view(&self) -> BuildConfigView {
        BuildConfigView { builder_id: self.builder_id@, repo: self.repo@ }
    }
}

impl View for PartialBuildConfig {
    type V = PartialBuildConfigView;

    open spec fn view(&self) -> PartialBuildConfigView {
        PartialBuildConfigView { builder_id: text_of(self.builder_id), repo: text_of(self.repo) }
    }
}

impl Clone for BuildConfig {
    fn clone(&self) -> (c: BuildConfig)
        ensures
            c == *self,
    {
        BuildConfig { builder_id: self.builder_id.clone(), repo: self.repo.clone() }
    }
}

impl Duplicate for BuildConfig {
    fn duplicate(&self) -> (copy: BuildConfig) {
        self.clone()
    }
}

impl BuildConfigView {
    /// The settings of a build for which nothing was said.
    pub open spec fn defaults() -> BuildConfigView {
        BuildConfigView { builder_id: Seq::empty(), repo: Seq::empty() }
    }

    /// `self` with each setting that `patch` gives put in place of its own.
    pub open spec fn merged(self, patch: PartialBuildConfigView) -> BuildConfigView {
        BuildConfigView {
            builder_id: or_base(patch.builder_id, self.builder_id),
            repo: or_base(patch.repo, self.repo),
        }
    }
}

impl BuildConfig {
    /// The settings of a build for which nothing was said.
    pub fn defaults() -> (c: BuildConfig)
        ensures
            c@ == BuildConfigView::defaults(),
    {
        BuildConfig { builder_id: String::new(), repo: String::new() }
    }

    /// `base` with each setting that `patch` gives put in place of its own.
    pub fn apply_partial(base: BuildConfig, patch: PartialBuildConfig) -> (c: BuildConfig)
        ensures
            c@ == base@.merged(patch@),
    {
        BuildConfig {
            builder_id: text_or(patch.builder_id, base.builder_id),
            repo: text_or(patch.repo, base.repo),
        }
    }

    /// The settings that `patch` gives, with the default for each one that
    /// it leaves out.
    pub fn from_partial(patch: PartialBuildConfig) -> (c: BuildConfig)
        ensures
            c@ == BuildConfigView::defaults().merged(patch@),
    {
        BuildConfig::apply_partial(BuildConfig::defaults(), patch)
    }
}

/// The settings of a builder: the server that builds.
#[derive(Debug, PartialEq, Eq)]
pub struct BuilderConfig {
    pub server_id: String,
}

/// A [`BuilderConfig`] as plain values.
pub struct BuilderConfigView {
    pub server_id: Seq<char>,
}

/// Settings of a builder of which any may be left out.
#[derive(Debug, PartialEq, Eq)]
pub struct PartialBuilderConfig {
    pub server_id: Option<String>,
}

/// A [`PartialBuilderConfig`] as plain values.
pub struct PartialBuilderConfigView {
    pub server_id: Option<Seq<char>>,
}

impl View for BuilderConfig {
    type V = BuilderConfigView;

    open spec fn view(&self) -> BuilderConfigView {
        BuilderConfigView { server_id: self.server_id@ }
    }
}

impl View for PartialBuilderConfig {
    type V = PartialBuilderConfigView;

    open spec fn view(&self) -> PartialBuilderConfigView {
        PartialBuilderConfigView { server_id: text_of(self.server_id) }
    }
}

impl Clone for BuilderConfig {
    fn clone(&self) -> (c: BuilderConfig)
        ensures
            c == *self,
    {
        BuilderConfig { server_id: self.server_id.clone() }
    }
}

impl Duplicate for BuilderConfig {
    fn duplicate(&self) -> (copy: BuilderConfig) {
        self.clone()
    }
}

impl BuilderConfigView {
    /// The settings of a builder for which nothing was said.
    pub open spec fn defaults() -> BuilderConfigView {
        BuilderConfigView { server_id: Seq::empty() }
    }

    /// `self` with each setting that `patch` gives put in place of its own.
    pub open spec fn merged(self, patch: PartialBuilderConfigView) -> BuilderConfigView {
        BuilderConfigView { server_id: or_base(patch.server_id, self.server_id) }
    }
}

impl BuilderConfig {
    /// The settings of a builder for which nothing was said.
    pub fn defaults() -> (c: BuilderConfig)
        ensures
            c@ == BuilderConfigView::defaults(),
    {
        BuilderConfig { server_id: String::new() }
    }

    /// `base` with each setting that `patch` gives put in place of its own.
    pub fn apply_partial(base: BuilderConfig, patch: PartialBuilderConfig) -> (c: BuilderConfig)
        ensures
            c@ == base@.merged(patch@),
    {
        BuilderConfig { server_id: text_or(patch.server_id, base.server_id) }
    }

    /// The settings that `patch` gives, with the default for each one that
    /// it leaves out.
    pub fn from_partial(patch: PartialBuilderConfig) -> (c: BuilderConfig)
        ensures
            c@ == BuilderConfigView::defaults().merged(patch@),
    {
        BuilderConfig::apply_partial(BuilderConfig::defaults(), patch)
    }
}

/// The settings of a repo: the server that holds the clone, and where it is
/// cloned from.
#[derive(Debug, PartialEq, Eq)]
pub struct RepoConfig {
    pub server_id: String,
    pub repo: String,
}

/// A [`RepoConfig`] as plain values.
pub struct RepoConfigView {
    pub server_id: Seq<char>,
    pub repo: Seq<char>,
}

/// Settings of a repo of which any may be left out.
#[derive(Debug, PartialEq, Eq)]
pub struct PartialRepoConfig {
    pub server_id: Option<String>,
    pub repo: Option<String>,
}

/// A [`PartialRepoConfig`] as plain values.
pub struct PartialRepoConfigView {
    pub server_id: Option<Seq<char>>,
    pub repo: Option<Seq<char>>,
}

impl View for RepoConfig {
    type V = RepoConfigView;

    open spec fn view(&self) -> RepoConfigView {
        RepoConfigView { server_id: self.server_id@, repo: self.repo@ }
    }
}

impl View for PartialRepoConfig {
    type V = PartialRepoConfigView;

    open spec fn view(&self) -> PartialRepoConfigView {
        PartialRepoConfigView { server_id: text_of(self.server_id), repo: text_of(self.repo) }
    }
}

impl Clone for RepoConfig {
    fn clone(&self) -> (c: RepoConfig)
        ensures
            c == *self,
    {
        RepoConfig { server_id: self.server_id.clone(), repo: self.repo.clone() }
    }
}

impl Duplicate for RepoConfig {
    fn duplicate(&self) -> (copy: RepoConfig) {
        self.clone()
    }
}

impl RepoConfigView {
    /// The settings of a repo for which nothing was said.
    pub open spec fn defaults() -> RepoConfigView {
        RepoConfigView { server_id: Seq::empty(), repo: Seq::empty() }
    }

    /// `self` with each setting that `patch` gives put in place of its own.
    pub open spec fn merged(self, patch: PartialRepoConfigView) -> RepoConfigView {
        RepoConfigView {
            server_id: or_base(patch.server_id, self.server_id),
            repo: or_base(patch.repo, self.repo),
        }
    }
}

impl RepoConfig {
    /// The settings of a repo for which nothing was said.
    pub fn defaults() -> (c: RepoConfig)
        ensures
            c@ == RepoConfigView::defaults(),
    {
        RepoConfig { server_id: String::new(), repo: String::new() }
    }

    /// `base` with each setting that `patch` gives put in place of its own.
    pub fn apply_partial(base: RepoConfig, patch: PartialRepoConfig) -> (c: RepoConfig)
        ensures
            c@ == base@.merged(patch@),
    {
        RepoConfig {
            server_id: text_or(patch.server_id, base.server_id),
            repo: text_or(patch.repo, base.repo),
        }
    }

    /// The settings that `patch` gives, with the default for each one that
    /// it leaves out.
    pub fn from_partial(patch: PartialRepoConfig) -> (c: RepoConfig)
        ensures
            c@ == RepoConfigView::defaults().merged(patch@),
    {
        RepoConfig::apply_partial(RepoConfig::defaults(), patch)
    }
}

} // verus!
