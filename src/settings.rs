use vstd::prelude::*;

verus! {

/// A persona: its display name, the prompt that seeds its conversations, and
/// its icon as base64 text.
#[derive(Clone, Debug, Eq)]
pub struct Role {
    pub name: String,
    pub prompt: String,
    pub icon_base64: String,
}

/// The mathematical value of a role.
pub ghost struct RoleView {
    pub name: Seq<char>,
    pub prompt: Seq<char>,
    pub icon_base64: Seq<char>,
}

impl View for Role {
    type V = RoleView;

    open spec fn view(&self) -> RoleView {
        RoleView { name: self.name@, prompt: self.prompt@, icon_base64: self.icon_base64@ }
    }
}

impl Role {
    pub fn new(name: String, prompt: String, icon_base64: String) -> (r: Role)
        ensures
            r.name@ == name@,
            r.prompt@ == prompt@,
            r.icon_base64@ == icon_base64@,
    {
        Role { name, prompt, icon_base64 }
    }

    /// A deep copy of the role.
    pub fn duplicate(&self) -> (r: Role)
        ensures
            r@ == self@,
    {
        Role {
            name: self.name.clone(),
            prompt: self.prompt.clone(),
            icon_base64: self.icon_base64.clone(),
        }
    }
}

/// Two roles are the same role when their names and prompts are equal; the
/// icon does not count.
pub open spec fn same_role(a: RoleView, b: RoleView) -> bool {
    a.name == b.name && a.prompt == b.prompt
}

impl PartialEq for Role {
    fn eq(&self, other: &Role) -> (r: bool)
        ensures
            r == same_role(self@, other@),
    {
        self.name == other.name && self.prompt == other.prompt
    }
}

impl vstd::std_specs::cmp::PartialEqSpecImpl for Role {
    open spec fn obeys_eq_spec() -> bool {
        true
    }

    open spec fn eq_spec(&self, other: &Role) -> bool {
        same_role(self@, other@)
    }
}

/// What the client keeps between runs: the backend's key and address, and the
/// roles offered, in order.
#[derive(Clone, Debug)]
pub struct Settings {
    pub api_key: String,
    pub api_url: String,
    pub role_list: Vec<Role>,
}

pub const DEFAULT_API_URL: &'static str = "https://api.openai.com/v1/chat/completions";

fn builtin_role(name: &str, prompt: &str) -> (r: Role)
    ensures
        r.name@ == name@,
        r.prompt@ == prompt@,
        r.icon_base64@.len() == 0,
{
    Role::new(String::from_str(name), String::from_str(prompt), String::new())
}

/// The names and seed prompts of the roles that a fresh installation offers.
pub open spec fn builtin_roles() -> Seq<(Seq<char>, Seq<char>)> {
    seq![
        ("XXXGPT"@, "You are XXXGPT, an ai model"@),
        ("ChatGPT"@, "You are ChatGPT, an ai model"@),
        ("Translator"@, "You are TranGPT dedicated for translating between Chinese and English"@),
        ("Last"@, "You are LastGPT dedicated for translating between Chinese and English"@),
    ]
}

impl Default for Settings {
    /// No key, the public completion endpoint, and the four built-in roles
    /// without icons.
    fn default() -> (r: Settings)
        ensures
            r.api_key@.len() == 0,
            r.api_url@ == DEFAULT_API_URL@,
            r.role_list@.len() == builtin_roles().len(),
            forall|i: int|
                0 <= i < r.role_list@.len() ==> (#[trigger] r.role_list@[i]).name@
                    == builtin_roles()[i].0 && r.role_list@[i].prompt@ == builtin_roles()[i].1
                    && r.role_list@[i].icon_base64@.len() == 0,
    {
        let mut role_list: Vec<Role> = Vec::new();
        role_list.push(builtin_role("XXXGPT", "You are XXXGPT, an ai model"));
        role_list.push(builtin_role("ChatGPT", "You are ChatGPT, an ai model"));
        role_list.push(
            builtin_role(
                "Translator",
                "You are TranGPT dedicated for translating between Chinese and English",
            ),
        );
        role_list.push(
            builtin_role(
                "Last",
                "You are LastGPT dedicated for translating between Chinese and English",
            ),
        );
        Settings { api_key: String::new(), api_url: String::from_str(DEFAULT_API_URL), role_list }
    }
}

} // verus!
