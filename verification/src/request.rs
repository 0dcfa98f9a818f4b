//! The install request: what one installation attempt is asked to install.

use vstd::prelude::*;

verus! {

/// What to install. Built once by the caller and never changed afterwards.
#[derive(Clone, Debug, PartialEq, Eq)]
pub enum InstallType {
    /// Install the running program itself.
    SelfInstall,
    /// Install an application container described by a manifest.
    AppInstall {
        /// Key of the install slot.
        name: String,
        /// Name shown to the user.
        display_name: String,
        /// The manifest as raw, unparsed text.
        manifest_content: String,
    },
}

/// Mathematical value of an [`InstallType`].
pub enum RequestModel {
    SelfInstall,
    AppInstall { name: Seq<char>, display_name: Seq<char>, manifest_content: Seq<char> },
}

impl View for InstallType {
    type V = RequestModel;

    open spec fn view(&self) -> RequestModel {
        match *self {
            InstallType::SelfInstall => RequestModel::SelfInstall,
            InstallType::AppInstall { name, display_name, manifest_content } => {
                RequestModel::AppInstall {
                    name: name@,
                    display_name: display_name@,
                    manifest_content: manifest_content@,
                }
            },
        }
    }
}

/// The text without characters.
fn empty_text() -> (text: &'static str)
    ensures
        text@ == Seq::<char>::empty(),
{
    proof {
        reveal_strlit("");
    }
    assert(""@ =~= Seq::<char>::empty());
    ""
}

impl RequestModel {
    /// The install slot; a self-install has none, which reads as the empty text.
    pub open spec fn name(self) -> Seq<char> {
        match self {
            RequestModel::AppInstall { name, .. } => name,
            RequestModel::SelfInstall => Seq::empty(),
        }
    }

    /// The name shown to the user; empty for a self-install.
    pub open spec fn display_name(self) -> Seq<char> {
        match self {
            RequestModel::AppInstall { display_name, .. } => display_name,
            RequestModel::SelfInstall => Seq::empty(),
        }
    }

    /// The raw manifest text; empty for a self-install.
    pub open spec fn manifest_content(self) -> Seq<char> {
        match self {
            RequestModel::AppInstall { manifest_content, .. } => manifest_content,
            RequestModel::SelfInstall => Seq::empty(),
        }
    }
}

impl InstallType {
    /// The install slot; empty for a self-install.
    pub fn name(&self) -> (text: &str)
        ensures
            text@ == self@.name(),
    {
        match self {
            InstallType::AppInstall { name, .. } => name.as_str(),
            InstallType::SelfInstall => empty_text(),
        }
    }

    /// The name shown to the user; empty for a self-install.
    pub fn display_name(&self) -> (text: &str)
        ensures
            text@ == self@.display_name(),
    {
        match self {
            InstallType::AppInstall { display_name, .. } => display_name.as_str(),
            InstallType::SelfInstall => empty_text(),
        }
    }

    /// The raw manifest text; empty for a self-install.
    pub fn manifest_content(&self) -> (text: &str)
        ensures
            text@ == self@.manifest_content(),
    {
        match self {
            InstallType::AppInstall { manifest_content, .. } => manifest_content.as_str(),
            InstallType::SelfInstall => empty_text(),
        }
    }

    /// An independent copy with the same value, for handing to a worker.
    pub fn duplicate(&self) -> (copy: InstallType)
        ensures
            copy@ == self@,
    {
        match self {
            InstallType::SelfInstall => InstallType::SelfInstall,
            InstallType::AppInstall { name, display_name, manifest_content } => {
                InstallType::AppInstall {
                    name: name.clone(),
                    display_name: display_name.clone(),
                    manifest_content: manifest_content.clone(),
                }
            },
        }
    }
}

} // verus!
