use vstd::prelude::*;
use crate::artifact::{family_subdir, Family};
use crate::config::{join, joined, StationConfig};
use crate::error::{class_of, ErrorClass, ReadStage, StationError};

verus! {

/// What a request asks of the station.
#[derive(Debug, Clone, Copy, PartialEq, Eq, Structural)]
pub enum Quest {
    /// The version of a family's current build, as plain text.
    Version(Family),
    /// A redirect to the download URL of a family's current build.
    Address(Family),
    /// A redirect to the fixed URL of the Ventoy plugin image.
    VentoyPlugin,
}

/// The quests of the public information route, by name.
pub open spec fn info_quest(q: Seq<char>) -> Option<Quest> {
    if q == "iso_version"@ {
        Some(Quest::Version(Family::Iso))
    } else if q == "iso_addr"@ {
        Some(Quest::Address(Family::Iso))
    } else if q == "hub_version"@ {
        Some(Quest::Version(Family::Hub))
    } else if q == "hub_addr"@ {
        Some(Quest::Address(Family::Hub))
    } else if q == "ventoy_plugin_addr"@ {
        Some(Quest::VentoyPlugin)
    } else {
        None
    }
}

/// The quests of the token-guarded preview route, by name.
pub open spec fn alpha_quest(q: Seq<char>) -> Option<Quest> {
    if q == "version"@ {
        Some(Quest::Version(Family::Alpha))
    } else if q == "addr"@ {
        Some(Quest::Address(Family::Alpha))
    } else {
        None
    }
}

fn same_text(a: &str, b: &str) -> (r: bool)
    ensures
        r == (a@ == b@),
{
    a.to_owned() == b.to_owned()
}

/// Reads the quest of the information route; an unknown name gives
/// `UnknownQuest`.
pub fn parse_info_quest(quest: &str) -> (r: Result<Quest, StationError>)
    ensures
        info_quest(quest@) matches Some(q) ==> r == Ok::<Quest, StationError>(q),
        info_quest(quest@) is None ==> (r matches Err(StationError::UnknownQuest { quest: n }) && n@ == quest@),
{
    if same_text(quest, "iso_version") {
        Ok(Quest::Version(Family::Iso))
    } else if same_text(quest, "iso_addr") {
        Ok(Quest::Address(Family::Iso))
    } else if same_text(quest, "hub_version") {
        Ok(Quest::Version(Family::Hub))
    } else if same_text(quest, "hub_addr") {
        Ok(Quest::Address(Family::Hub))
    } else if same_text(quest, "ventoy_plugin_addr") {
        Ok(Quest::VentoyPlugin)
    } else {
        Err(StationError::UnknownQuest { quest: quest.to_owned() })
    }
}

/// Reads the quest of the preview route. The token is checked first: a
/// wrong one gives `InvalidToken` whatever the quest; then an unknown name
/// gives `UnknownQuest` with the path that was asked for, `/alpha/` and
/// the quest.
pub fn parse_alpha_quest(config: &StationConfig, token: &str, quest: &str) -> (r: Result<Quest, StationError>)
    ensures
        token@ != config.token@ ==> (r matches Err(StationError::InvalidToken { token: t }) && t@ == token@),
        token@ == config.token@ && alpha_quest(quest@) is Some ==> r == Ok::<Quest, StationError>(alpha_quest(quest@)->Some_0),
        token@ == config.token@ && alpha_quest(quest@) is None ==> (r matches Err(StationError::UnknownQuest { quest: n })
            && n@ == "/alpha/"@ + quest@),
{
    if !config.token_accepted(token) {
        return Err(StationError::InvalidToken { token: token.to_owned() });
    }
    if same_text(quest, "version") {
        Ok(Quest::Version(Family::Alpha))
    } else if same_text(quest, "addr") {
        Ok(Quest::Address(Family::Alpha))
    } else {
        Err(StationError::UnknownQuest { quest: "/alpha/".to_owned().concat(quest) })
    }
}

/// The fixed download URL of the Ventoy plugin image.
pub fn ventoy_plugin_url(config: &StationConfig) -> (r: String)
    ensures
        r@ == joined(joined(config.public_url@, family_subdir(Family::Hub)), "ventoy_wimboot.img"@),
{
    let base = join(config.public_url.as_str(), Family::Hub.subdir());
    join(base.as_str(), "ventoy_wimboot.img")
}

pub open spec fn digit_char(d: nat) -> char {
    "0123456789"@[d as int]
}

/// The decimal digits of `n`, most significant first, without leading zeros.
pub open spec fn decimal(n: nat) -> Seq<char>
    decreases n,
{
    if n < 10 {
        seq![digit_char(n)]
    } else {
        decimal(n / 10) + seq![digit_char(n % 10)]
    }
}

/// `n` written in decimal.
pub fn decimal_string(n: usize) -> (r: String)
    ensures
        r@ == decimal(n as nat),
{
    proof {
        reveal_strlit("0123456789");
    }
    let mut m: usize = n;
    let mut out = String::new();
    while m >= 10
        invariant
            decimal(n as nat) == decimal(m as nat) + out@,
            "0123456789"@.len() == 10,
        decreases m,
    {
        let d: usize = m % 10;
        let digit = "0123456789".substring_char(d, d + 1).to_owned();
        assert(digit@ =~= seq![digit_char(d as nat)]);
        let ghost rest = out@;
        out = digit.concat(out.as_str());
        assert(decimal(m as nat) == decimal((m / 10) as nat) + seq![digit_char(d as nat)]);
        assert(decimal(n as nat) =~= decimal((m / 10) as nat) + out@);
        m = m / 10;
    }
    let digit = "0123456789".substring_char(m, m + 1).to_owned();
    assert(digit@ =~= seq![digit_char(m as nat)]);
    let r = digit.concat(out.as_str());
    assert(r@ =~= decimal(n as nat));
    r
}

/// The human-readable account of a failure.
pub open spec fn detail_text(e: StationError) -> Seq<char> {
    match e {
        StationError::NotFound { path } => "file_selector:Can't find "@ + path@,
        StationError::NotReadable { path, stage } => match stage {
            ReadStage::Scan => "file_selector:Can't read as directory: "@ + path@,
            ReadStage::Catalog => "get_plugin_cate:Fail to read : "@ + path@,
            ReadStage::CategoryOpen => "get_plugin_list:Can't open as directory : "@ + path@,
            ReadStage::Metadata => "get_plugin_list:Fail to read : "@ + path@,
        },
        StationError::InvalidPattern { pattern } => "file_selector:Invalid expression: "@ + pattern@,
        StationError::NoMatch { path, pattern } => "file_selector:Matched nothing when looking into "@ + path@
            + " for "@ + pattern@,
        StationError::IndexOutOfRange { name, index, .. } => "version_extractor:Index out of range when split "@
            + name@ + ",got "@ + decimal(index as nat),
        StationError::UnknownCategory { .. } => "No such cate"@,
        StationError::UnknownQuest { quest } => quest@,
        StationError::InvalidToken { token } => "Invalid token : "@ + token@,
    }
}

/// The body of an error reply: a headline naming the class of the failure,
/// then its detail.
pub open spec fn error_body_text(e: StationError) -> Seq<char> {
    match class_of(e) {
        ErrorClass::BadRequest => "Error: Quest\nUnknown quest:"@ + detail_text(e),
        ErrorClass::Internal => "Error: Internal\n"@ + detail_text(e),
    }
}

impl StationError {
    /// The human-readable account of this failure.
    pub fn detail(&self) -> (r: String)
        ensures
            r@ == detail_text(*self),
    {
        match self {
            StationError::NotFound { path } => "file_selector:Can't find ".to_owned().concat(path.as_str()),
            StationError::NotReadable { path, stage } => {
                let head = match stage {
                    ReadStage::Scan => "file_selector:Can't read as directory: ",
                    ReadStage::Catalog => "get_plugin_cate:Fail to read : ",
                    ReadStage::CategoryOpen => "get_plugin_list:Can't open as directory : ",
                    ReadStage::Metadata => "get_plugin_list:Fail to read : ",
                };
                head.to_owned().concat(path.as_str())
            },
            StationError::InvalidPattern { pattern } => "file_selector:Invalid expression: ".to_owned().concat(
                pattern.as_str(),
            ),
            StationError::NoMatch { path, pattern } => "file_selector:Matched nothing when looking into ".to_owned().concat(
                path.as_str(),
            ).concat(" for ").concat(pattern.as_str()),
            StationError::IndexOutOfRange { name, index, .. } => {
                let i = decimal_string(*index);
                "version_extractor:Index out of range when split ".to_owned().concat(name.as_str()).concat(
                    ",got ",
                ).concat(i.as_str())
            },
            StationError::UnknownCategory { .. } => "No such cate".to_owned(),
            StationError::UnknownQuest { quest } => quest.clone(),
            StationError::InvalidToken { token } => "Invalid token : ".to_owned().concat(token.as_str()),
        }
    }

    /// The body of the error reply for this failure.
    pub fn body(&self) -> (r: String)
        ensures
            r@ == error_body_text(*self),
    {
        let d = self.detail();
        match self.class() {
            ErrorClass::BadRequest => "Error: Quest\nUnknown quest:".to_owned().concat(d.as_str()),
            ErrorClass::Internal => "Error: Internal\n".to_owned().concat(d.as_str()),
        }
    }
}

} // verus!
