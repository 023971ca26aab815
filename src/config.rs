use vstd::prelude::*;
use vstd::string::*;
use crate::text::{decimal, push_decimal};

verus! {

/// The assistant's settings.
#[derive(Debug, Clone)]
pub struct Config {
    pub ai: AiConfig,
    pub git: GitConfig,
    pub commit: CommitConfig,
    pub server: ServerConfig,
}

/// Settings of the text-generation provider.
#[derive(Debug, Clone)]
pub struct AiConfig {
    pub provider: String,
    /// Empty when no key is set.
    pub api_key: String,
    pub model: String,
}

/// Settings of the repository side.
#[derive(Debug, Clone)]
pub struct GitConfig {
    pub max_diff_size: usize,
    pub protected_branches: Vec<String>,
}

/// Settings of commit messages.
#[derive(Debug, Clone)]
pub struct CommitConfig {
    pub template: String,
    pub max_subject_length: usize,
}

/// Whether generation goes through the hosted service.
#[derive(Debug, Clone, Copy, PartialEq, Eq, Structural)]
pub struct ServerConfig {
    pub use_server: bool,
}

impl Default for ServerConfig {
    fn default() -> (r: ServerConfig)
        ensures
            r.use_server,
    {
        ServerConfig { use_server: true }
    }
}

impl Default for GitConfig {
    fn default() -> (r: GitConfig)
        ensures
            r.max_diff_size == 0,
            r.protected_branches@.len() == 0,
    {
        GitConfig { max_diff_size: 0, protected_branches: Vec::new() }
    }
}

impl Default for CommitConfig {
    fn default() -> (r: CommitConfig)
        ensures
            r.template@.len() == 0,
            r.max_subject_length == 0,
    {
        CommitConfig { template: String::new(), max_subject_length: 0 }
    }
}

/// The model named when a settings file leaves it out.
pub fn default_model() -> (r: String)
    ensures
        r@ == "haiku"@,
{
    String::from_str("haiku")
}

/// The diff size limit when a settings file leaves it out.
pub fn default_max_diff_size() -> (r: usize)
    ensures
        r == 1000,
{
    1000
}

/// The protected branches when a settings file leaves them out.
pub fn default_protected_branches() -> (r: Vec<String>)
    ensures
        r@.len() == 2,
        r@[0]@ == "main"@,
        r@[1]@ == "master"@,
{
    let mut v: Vec<String> = Vec::new();
    v.push(String::from_str("main"));
    v.push(String::from_str("master"));
    v
}

/// The message template when a settings file leaves it out.
pub fn default_commit_template() -> (r: String)
    ensures
        r@ == "conventional"@,
{
    String::from_str("conventional")
}

/// The subject length limit when a settings file leaves it out.
pub fn default_max_subject_length() -> (r: usize)
    ensures
        r == 72,
{
    72
}

/// Whether to use the hosted service when a settings file leaves it out.
pub fn default_use_server() -> (r: bool)
    ensures
        r,
{
    true
}

pub open spec fn bool_text(b: bool) -> Seq<char> {
    if b { "true"@ } else { "false"@ }
}

pub open spec fn bullets(items: Seq<String>) -> Seq<char>
    decreases items.len(),
{
    if items.len() == 0 {
        Seq::empty()
    } else {
        bullets(items.drop_last()) + "    - "@ + items.last()@ + "\n"@
    }
}

impl Config {
    /// The settings in force before any are saved.
    pub fn unconfigured() -> (r: Config)
        ensures
            r.ai.provider@ == "anthropic"@,
            r.ai.api_key@.len() == 0,
            r.ai.model@ == "haiku"@,
            r.git.max_diff_size == 0,
            r.git.protected_branches@.len() == 0,
            r.commit.template@.len() == 0,
            r.commit.max_subject_length == 0,
            r.server.use_server,
    {
        Config {
            ai: AiConfig {
                provider: String::from_str("anthropic"),
                api_key: String::new(),
                model: String::from_str("haiku"),
            },
            git: GitConfig::default(),
            commit: CommitConfig::default(),
            server: ServerConfig::default(),
        }
    }

    /// Replaces the API key; the caller saves the settings.
    pub fn set_api_key(&mut self, api_key: String)
        ensures
            final(self).ai.api_key == api_key,
            final(self).ai.provider == old(self).ai.provider,
            final(self).ai.model == old(self).ai.model,
            final(self).git == old(self).git,
            final(self).commit == old(self).commit,
            final(self).server == old(self).server,
    {
        self.ai.api_key = api_key;
    }

    /// The API key, when one is set.
    pub fn get_api_key(&self) -> (r: Option<&str>)
        ensures
            r is None <==> self.ai.api_key@.len() == 0,
            r matches Some(k) ==> k@ == self.ai.api_key@,
    {
        if self.ai.api_key.as_str().is_empty() {
            None
        } else {
            Some(self.ai.api_key.as_str())
        }
    }

    /// Turns the hosted service on or off; the caller saves the settings.
    pub fn set_use_server(&mut self, use_server: bool)
        ensures
            final(self).server.use_server == use_server,
            final(self).ai == old(self).ai,
            final(self).git == old(self).git,
            final(self).commit == old(self).commit,
    {
        self.server.use_server = use_server;
    }

    /// Whether generation goes through the hosted service.
    pub fn use_server(&self) -> (r: bool)
        ensures
            r == self.server.use_server,
    {
        self.server.use_server
    }

    /// The settings as shown to the user, with the API key masked.
    pub open spec fn display_text(self) -> Seq<char> {
        "\nAI Configuration:\n"@ + "  Provider: "@ + self.ai.provider@ + "\n"@ + "  Model: "@
            + self.ai.model@ + "\n"@ + "  API Key: "@ + (if self.ai.api_key@.len() == 0 {
            "<not set>"@
        } else {
            "********"@
        }) + "\n"@ + "\nGit Configuration:\n"@ + "  Max Diff Size: "@ + decimal(
            self.git.max_diff_size as nat,
        ) + " lines\n"@ + "  Protected Branches:\n"@ + bullets(self.git.protected_branches@)
            + "\nCommit Configuration:\n"@ + "  Template: "@ + self.commit.template@ + "\n"@
            + "  Max Subject Length: "@ + decimal(self.commit.max_subject_length as nat)
            + " characters\n"@ + "\nServer Configuration:\n"@ + "  Use Server: "@ + bool_text(
            self.server.use_server,
        ) + "\n"@
    }

    /// Renders the settings for display, with the API key masked.
    pub fn display(&self) -> (r: String)
        ensures
            r@ == self.display_text(),
    {
        let mut out = String::new();
        out.append("\nAI Configuration:\n");
        out.append("  Provider: ");
        out.append(self.ai.provider.as_str());
        out.append("\n");
        out.append("  Model: ");
        out.append(self.ai.model.as_str());
        out.append("\n");
        out.append("  API Key: ");
        if self.ai.api_key.as_str().is_empty() {
            out.append("<not set>");
        } else {
            out.append("********");
        }
        out.append("\n");
        out.append("\nGit Configuration:\n");
        out.append("  Max Diff Size: ");
        push_decimal(&mut out, self.git.max_diff_size as u64);
        out.append(" lines\n");
        out.append("  Protected Branches:\n");
        let ghost before = out@;
        let branches = &self.git.protected_branches;
        let mut i: usize = 0;
        assert(before =~= before + bullets(branches@.subrange(0, 0)));
        while i < branches.len()
            invariant
                i <= branches@.len(),
                out@ == before + bullets(branches@.subrange(0, i as int)),
            decreases branches@.len() - i,
        {
            out.append("    - ");
            out.append(branches[i].as_str());
            out.append("\n");
            assert(branches@.subrange(0, i as int + 1).drop_last() =~= branches@.subrange(0, i as int));
            assert(out@ =~= before + bullets(branches@.subrange(0, i as int + 1)));
            i = i + 1;
        }
        assert(branches@.subrange(0, branches@.len() as int) =~= branches@);
        out.append("\nCommit Configuration:\n");
        out.append("  Template: ");
        out.append(self.commit.template.as_str());
        out.append("\n");
        out.append("  Max Subject Length: ");
        push_decimal(&mut out, self.commit.max_subject_length as u64);
        out.append(" characters\n");
        out.append("\nServer Configuration:\n");
        out.append("  Use Server: ");
        if self.server.use_server {
            out.append("true");
        } else {
            out.append("false");
        }
        out.append("\n");
        assert(out@ =~= self.display_text());
        out
    }
}

} // verus!
