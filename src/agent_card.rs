//! The agent card that describes this agent to its peers.
use vstd::prelude::*;
use crate::text::{str_texts, strings, texts};

verus! {

/// Describes an agent: identity, endpoint, capabilities and skills.
#[derive(Debug, Clone)]
pub struct A2AAgentCard {
    /// Human-readable name for the agent.
    pub name: String,
    /// Human-readable description of the agent's function.
    pub description: String,
    /// URL at which the agent is hosted.
    pub url: String,
    /// Service provider of the agent.
    pub provider: Option<ProviderInfo>,
    pub version: String,
    /// URL of the agent's documentation.
    pub documentation_url: Option<String>,
    pub capabilities: Capabilities,
    pub authentication: Authentication,
    /// Interaction modes accepted across all skills.
    pub default_input_modes: Vec<String>,
    /// Interaction modes produced across all skills.
    pub default_output_modes: Vec<String>,
    pub skills: Vec<Skill>,
}

/// The organisation that provides an agent.
#[derive(Debug, Clone)]
pub struct ProviderInfo {
    pub organization: String,
    pub url: String,
}

/// Optional protocol features an agent supports.
#[derive(Debug, Clone)]
pub struct Capabilities {
    /// Server-sent events.
    pub streaming: Option<bool>,
    /// Push notifications of updates to the client.
    pub push_notifications: Option<bool>,
    /// History of task state changes.
    pub state_transition_history: Option<bool>,
}

/// Authentication an agent asks of its clients.
#[derive(Debug, Clone)]
pub struct Authentication {
    /// Accepted schemes, such as Basic or Bearer.
    pub schemes: Vec<String>,
    /// Credentials for private cards.
    pub credentials: Option<String>,
}

/// One capability unit of an agent.
#[derive(Debug, Clone)]
pub struct Skill {
    pub id: String,
    pub name: String,
    pub description: String,
    /// Category tags.
    pub tags: Vec<String>,
    /// Example prompts the skill handles.
    pub examples: Option<Vec<String>>,
    /// Input modes, where they differ from the agent's defaults.
    pub input_modes: Option<Vec<String>>,
    /// Output modes, where they differ from the agent's defaults.
    pub output_modes: Option<Vec<String>>,
}

pub open spec fn opt_texts(v: Option<Vec<String>>) -> Option<Seq<Seq<char>>> {
    match v {
        Some(v) => Some(texts(v@)),
        None => None,
    }
}

pub open spec fn standard_capabilities(c: Capabilities) -> bool {
    c.streaming == Some(false) && c.push_notifications == Some(false)
        && c.state_transition_history == Some(true)
}

pub open spec fn open_access(a: Authentication) -> bool {
    texts(a.schemes@) == seq!["none"@] && a.credentials is None
}

pub open spec fn standard_modes(card: A2AAgentCard) -> bool {
    texts(card.default_input_modes@) == seq!["application/json"@, "text/plain"@]
        && texts(card.default_output_modes@) == seq![
        "text/csv"@,
        "application/json"@,
        "text/plain"@,
    ]
}

/// `s` has the given id, name, description, tags, examples and modes.
pub open spec fn skill_is(
    s: Skill,
    id: Seq<char>,
    name: Seq<char>,
    description: Seq<char>,
    tags: Seq<Seq<char>>,
    examples: Seq<Seq<char>>,
    output_modes: Option<Seq<Seq<char>>>,
) -> bool {
    &&& s.id@ == id
    &&& s.name@ == name
    &&& s.description@ == description
    &&& texts(s.tags@) == tags
    &&& opt_texts(s.examples) == Some(examples)
    &&& s.input_modes is None
    &&& opt_texts(s.output_modes) == output_modes
}

fn standard_capabilities_value() -> (r: Capabilities)
    ensures
        standard_capabilities(r),
{
    Capabilities {
        streaming: Some(false),
        push_notifications: Some(false),
        state_transition_history: Some(true),
    }
}

fn open_access_value() -> (r: Authentication)
    ensures
        open_access(r),
{
    let schemes = strings(&["none"]);
    assert(texts(schemes@) =~= seq!["none"@]);
    Authentication { schemes, credentials: None }
}

fn input_modes_value() -> (r: Vec<String>)
    ensures
        texts(r@) == seq!["application/json"@, "text/plain"@],
{
    let r = strings(&["application/json", "text/plain"]);
    assert(texts(r@) =~= seq!["application/json"@, "text/plain"@]);
    r
}

fn output_modes_value() -> (r: Vec<String>)
    ensures
        texts(r@) == seq!["text/csv"@, "application/json"@, "text/plain"@],
{
    let r = strings(&["text/csv", "application/json", "text/plain"]);
    assert(texts(r@) =~= seq!["text/csv"@, "application/json"@, "text/plain"@]);
    r
}

fn docs_url(base: &str) -> (r: String)
    ensures
        r@ == base@ + "/docs"@,
{
    let mut s = String::from_str(base);
    s.append("/docs");
    s
}

fn skill(
    id: &str,
    name: &str,
    description: &str,
    tags: &[&str],
    examples: &[&str],
    output_modes: Option<&[&str]>,
) -> (r: Skill)
    ensures
        r.id@ == id@,
        r.name@ == name@,
        r.description@ == description@,
        texts(r.tags@) == str_texts(tags@),
        opt_texts(r.examples) == Some(str_texts(examples@)),
        r.input_modes is None,
        opt_texts(r.output_modes) == match output_modes {
            Some(m) => Some(str_texts(m@)),
            None => None,
        },
{
    let output_modes = match output_modes {
        Some(m) => Some(strings(m)),
        None => None,
    };
    Skill {
        id: String::from_str(id),
        name: String::from_str(name),
        description: String::from_str(description),
        tags: strings(tags),
        examples: Some(strings(examples)),
        input_modes: None,
        output_modes,
    }
}

pub open spec fn processing_skill(s: Skill) -> bool {
    skill_is(
        s,
        "purchase-order-processing"@,
        "Purchase Order Processing"@,
        "Process and validate purchase orders with comprehensive business rules checking, financial calculations verification, and approval status determination."@,
        seq!["finance"@, "procurement"@, "validation"@, "business-rules"@, "approval-workflow"@],
        seq![
            "Process a purchase order for office supplies totaling $500"@,
            "Validate a marketing department purchase order with tax calculations"@,
            "Check approval status for a high-value IT equipment purchase order"@,
            "Generate CSV report from purchase order data"@,
        ],
        None,
    )
}

pub open spec fn validation_skill(s: Skill) -> bool {
    skill_is(
        s,
        "purchase-order-validation"@,
        "Purchase Order Validation"@,
        "Validate purchase order data including required fields, financial calculations, line item verification, and business rules compliance."@,
        seq!["validation"@, "data-integrity"@, "business-rules"@, "compliance"@],
        seq![
            "Validate that all required fields are present in a purchase order"@,
            "Check that line totals match quantity × unit price calculations"@,
            "Verify that tax calculations are correct based on tax rate"@,
            "Ensure buyer department is authorized for purchases"@,
        ],
        None,
    )
}

pub open spec fn reporting_skill(s: Skill) -> bool {
    skill_is(
        s,
        "purchase-order-reporting"@,
        "Purchase Order Reporting"@,
        "Generate structured reports and summaries from purchase order data in various formats including CSV, JSON, and text."@,
        seq!["reporting"@, "data-export"@, "csv"@, "analytics"@],
        seq![
            "Generate CSV report with PO number, totals, supplier, and department"@,
            "Create JSON summary with validation status and key metrics"@,
            "Export purchase order details for accounting system integration"@,
        ],
        Some(seq!["text/csv"@, "application/json"@]),
    )
}

pub open spec fn basic_processing_skill(s: Skill) -> bool {
    skill_is(
        s,
        "purchase-order-processing"@,
        "Purchase Order Processing"@,
        "Process and validate purchase orders"@,
        seq!["finance"@, "procurement"@],
        seq!["Process a purchase order"@],
        None,
    )
}

impl A2AAgentCard {
    /// The card of the purchase order processing agent hosted at `base_url`,
    /// with its documentation under `<base_url>/docs` and three skills:
    /// processing, validation and reporting.
    pub fn new_purchase_order_agent(base_url: &str) -> (r: Self)
        ensures
            r.name@ == "Purchase Order Processing Agent"@,
            r.description@
                == "Specialized A2A agent for processing, validating, and managing purchase orders with comprehensive business rules checking, financial validation, and approval workflows."@,
            r.url@ == base_url@,
            r.provider is Some,
            r.provider->0.organization@ == "A2A Protocol Framework"@,
            r.provider->0.url@ == "https://agent2agent.info"@,
            r.version@ == "1.0.0"@,
            r.documentation_url is Some,
            r.documentation_url->0@ == base_url@ + "/docs"@,
            standard_capabilities(r.capabilities),
            open_access(r.authentication),
            standard_modes(r),
            r.skills@.len() == 3,
            processing_skill(r.skills@[0]),
            validation_skill(r.skills@[1]),
            reporting_skill(r.skills@[2]),
    {
        let processing = skill(
            "purchase-order-processing",
            "Purchase Order Processing",
            "Process and validate purchase orders with comprehensive business rules checking, financial calculations verification, and approval status determination.",
            &["finance", "procurement", "validation", "business-rules", "approval-workflow"],
            &[
                "Process a purchase order for office supplies totaling $500",
                "Validate a marketing department purchase order with tax calculations",
                "Check approval status for a high-value IT equipment purchase order",
                "Generate CSV report from purchase order data",
            ],
            None,
        );
        let validation = skill(
            "purchase-order-validation",
            "Purchase Order Validation",
            "Validate purchase order data including required fields, financial calculations, line item verification, and business rules compliance.",
            &["validation", "data-integrity", "business-rules", "compliance"],
            &[
                "Validate that all required fields are present in a purchase order",
                "Check that line totals match quantity × unit price calculations",
                "Verify that tax calculations are correct based on tax rate",
                "Ensure buyer department is authorized for purchases",
            ],
            None,
        );
        let reporting = skill(
            "purchase-order-reporting",
            "Purchase Order Reporting",
            "Generate structured reports and summaries from purchase order data in various formats including CSV, JSON, and text.",
            &["reporting", "data-export", "csv", "analytics"],
            &[
                "Generate CSV report with PO number, totals, supplier, and department",
                "Create JSON summary with validation status and key metrics",
                "Export purchase order details for accounting system integration",
            ],
            Some(&["text/csv", "application/json"]),
        );
        assert(texts(processing.tags@) =~= seq![
            "finance"@,
            "procurement"@,
            "validation"@,
            "business-rules"@,
            "approval-workflow"@,
        ]);
        assert(texts(processing.examples->0@) =~= seq![
            "Process a purchase order for office supplies totaling $500"@,
            "Validate a marketing department purchase order with tax calculations"@,
            "Check approval status for a high-value IT equipment purchase order"@,
            "Generate CSV report from purchase order data"@,
        ]);
        assert(texts(validation.tags@) =~= seq![
            "validation"@,
            "data-integrity"@,
            "business-rules"@,
            "compliance"@,
        ]);
        assert(texts(validation.examples->0@) =~= seq![
            "Validate that all required fields are present in a purchase order"@,
            "Check that line totals match quantity × unit price calculations"@,
            "Verify that tax calculations are correct based on tax rate"@,
            "Ensure buyer department is authorized for purchases"@,
        ]);
        assert(texts(reporting.tags@) =~= seq!["reporting"@, "data-export"@, "csv"@, "analytics"@]);
        assert(texts(reporting.examples->0@) =~= seq![
            "Generate CSV report with PO number, totals, supplier, and department"@,
            "Create JSON summary with validation status and key metrics"@,
            "Export purchase order details for accounting system integration"@,
        ]);
        assert(texts(reporting.output_modes->0@) =~= seq!["text/csv"@, "application/json"@]);
        let skills = vec![processing, validation, reporting];
        Self {
            name: String::from_str("Purchase Order Processing Agent"),
            description: String::from_str(
                "Specialized A2A agent for processing, validating, and managing purchase orders with comprehensive business rules checking, financial validation, and approval workflows.",
            ),
            url: String::from_str(base_url),
            provider: Some(
                ProviderInfo {
                    organization: String::from_str("A2A Protocol Framework"),
                    url: String::from_str("https://agent2agent.info"),
                },
            ),
            version: String::from_str("1.0.0"),
            documentation_url: Some(docs_url(base_url)),
            capabilities: standard_capabilities_value(),
            authentication: open_access_value(),
            default_input_modes: input_modes_value(),
            default_output_modes: output_modes_value(),
            skills,
        }
    }

    /// A card with the given identity; it has a provider only when both
    /// `provider_org` and `provider_url` are given, its documentation under
    /// `<url>/docs`, and one processing skill.
    pub fn new_custom(
        name: &str,
        description: &str,
        url: &str,
        version: &str,
        provider_org: Option<&str>,
        provider_url: Option<&str>,
    ) -> (r: Self)
        ensures
            r.name@ == name@,
            r.description@ == description@,
            r.url@ == url@,
            r.version@ == version@,
            r.provider is Some <==> (provider_org is Some && provider_url is Some),
            r.provider is Some ==> r.provider->0.organization@ == provider_org->0@
                && r.provider->0.url@ == provider_url->0@,
            r.documentation_url is Some,
            r.documentation_url->0@ == url@ + "/docs"@,
            standard_capabilities(r.capabilities),
            open_access(r.authentication),
            standard_modes(r),
            r.skills@.len() == 1,
            basic_processing_skill(r.skills@[0]),
    {
        let provider = match (provider_org, provider_url) {
            (Some(org), Some(purl)) => Some(
                ProviderInfo { organization: String::from_str(org), url: String::from_str(purl) },
            ),
            _ => None,
        };
        let processing = skill(
            "purchase-order-processing",
            "Purchase Order Processing",
            "Process and validate purchase orders",
            &["finance", "procurement"],
            &["Process a purchase order"],
            None,
        );
        assert(texts(processing.tags@) =~= seq!["finance"@, "procurement"@]);
        assert(texts(processing.examples->0@) =~= seq!["Process a purchase order"@]);
        let skills = vec![processing];
        Self {
            name: String::from_str(name),
            description: String::from_str(description),
            url: String::from_str(url),
            provider,
            version: String::from_str(version),
            documentation_url: Some(docs_url(url)),
            capabilities: standard_capabilities_value(),
            authentication: open_access_value(),
            default_input_modes: input_modes_value(),
            default_output_modes: output_modes_value(),
            skills,
        }
    }
}

} // verus!
