//! The prompt that asks a model for a file name.
//!
//! A prompt is a function of the text (or of the fact that an image is
//! shown), the configuration and what is known of the file. It is built
//! here from fixed sections; nothing in it depends on anything else.

use vstd::prelude::*;
use crate::config::{style_named, AppConfig, NamingStyle};
use crate::document::{blank, is_blank};
use crate::text::{
    chars_of, join_of, join_strings, push_all, push_str, string_of, strings, trim, trim_of,
    CharClass,
};

verus! {

/// What is known of the file that is being named.
#[derive(Clone, Debug, PartialEq, Eq)]
pub struct FileContext {
    pub original_name: String,
    pub parent_dir: String,
    pub sibling_names: Vec<String>,
    pub modified_at: String,
    pub file_size: String,
}

/// The view of a file's context: name, directory, siblings, date, size.
pub struct FileContextView {
    pub original_name: Seq<char>,
    pub parent_dir: Seq<char>,
    pub sibling_names: Seq<Seq<char>>,
    pub modified_at: Seq<char>,
    pub file_size: Seq<char>,
}

impl View for FileContext {
    type V = FileContextView;

    open spec fn view(&self) -> FileContextView {
        FileContextView {
            original_name: self.original_name@,
            parent_dir: self.parent_dir@,
            sibling_names: strings(self.sibling_names@),
            modified_at: self.modified_at@,
            file_size: self.file_size@,
        }
    }
}

/// The view of an optional context.
pub open spec fn opt_context(c: Option<&FileContext>) -> Option<FileContextView> {
    match c {
        Some(x) => Some(x@),
        None => None,
    }
}

/// The directive that describes a naming style.
pub open spec fn style_text(style: NamingStyle) -> Seq<char> {
    match style {
        NamingStyle::Camel => "camelCase：首词全小写，后续词首字母大写，无分隔符。示例：invoiceAcmeCorp20240815"@,
        NamingStyle::Pascal => "PascalCase：每个词首字母大写，无分隔符。示例：InvoiceAcmeCorp20240815"@,
        NamingStyle::Snake => "snake_case：全小写，下划线分隔。示例：invoice_acme_corp_20240815"@,
        NamingStyle::Train => "Train-Case：每个词首字母大写其余小写，连字符分隔。示例：Invoice-Acme-Corp-20240815"@,
        NamingStyle::Localized => "中文命名：使用简体中文，类型与标题之间用连字符分隔。示例：发票-Acme公司合作协议20240815"@,
        NamingStyle::Kebab => "kebab-case：全小写，连字符分隔。示例：invoice-acme-corp-20240815"@,
    }
}

/// The directive that describes the naming style that `naming_style` names.
pub fn style_description(naming_style: &str) -> (r: &'static str)
    ensures
        r@ == style_text(style_named(naming_style@)),
{
    match crate::config::naming_style(naming_style) {
        NamingStyle::Camel => "camelCase：首词全小写，后续词首字母大写，无分隔符。示例：invoiceAcmeCorp20240815",
        NamingStyle::Pascal => "PascalCase：每个词首字母大写，无分隔符。示例：InvoiceAcmeCorp20240815",
        NamingStyle::Snake => "snake_case：全小写，下划线分隔。示例：invoice_acme_corp_20240815",
        NamingStyle::Train => "Train-Case：每个词首字母大写其余小写，连字符分隔。示例：Invoice-Acme-Corp-20240815",
        NamingStyle::Localized => "中文命名：使用简体中文，类型与标题之间用连字符分隔。示例：发票-Acme公司合作协议20240815",
        NamingStyle::Kebab => "kebab-case：全小写，连字符分隔。示例：invoice-acme-corp-20240815",
    }
}

/// The section that tells the model about the file and its neighbours; empty
/// where nothing is known.
pub open spec fn context_text(context: Option<FileContextView>) -> Seq<char> {
    match context {
        None => Seq::empty(),
        Some(c) => "\n## 文件信息\n- 原始文件名: "@ + c.original_name + "\n- 所在目录: "@ + c.parent_dir
            + "\n- 修改时间: "@ + c.modified_at + "\n- 文件大小: "@ + c.file_size
            + "\n\n## 同目录已有文件（参考命名风格）\n"@ + (if c.sibling_names.len() == 0 {
            "（无）"@
        } else {
            join_of(c.sibling_names, "、"@)
        }) + "\n"@,
    }
}

/// The section that tells the model about the file and its neighbours.
pub fn context_section(context: Option<&FileContext>) -> (r: String)
    ensures
        r@ == context_text(opt_context(context)),
{
    match context {
        None => String::new(),
        Some(c) => {
            let mut out = chars_of("\n## 文件信息\n- 原始文件名: ");
            push_str(&mut out, c.original_name.as_str());
            push_str(&mut out, "\n- 所在目录: ");
            push_str(&mut out, c.parent_dir.as_str());
            push_str(&mut out, "\n- 修改时间: ");
            push_str(&mut out, c.modified_at.as_str());
            push_str(&mut out, "\n- 文件大小: ");
            push_str(&mut out, c.file_size.as_str());
            push_str(&mut out, "\n\n## 同目录已有文件（参考命名风格）\n");
            if c.sibling_names.len() == 0 {
                push_str(&mut out, "（无）");
            } else {
                let siblings = join_strings(&c.sibling_names, "、");
                push_all(&mut out, &siblings);
            }
            push_str(&mut out, "\n");
            string_of(&out)
        },
    }
}

/// The template in force: the configured one, trimmed; `{type}-{title}`
/// where that is blank.
pub open spec fn effective_template(template: Seq<char>) -> Seq<char> {
    if blank(template) {
        "{type}-{title}"@
    } else {
        trim_of(template, CharClass::Space)
    }
}

/// The kinds of document that `{type}` may become.
pub open spec fn type_list(style: NamingStyle) -> Seq<char> {
    if style == NamingStyle::Localized {
        "发票、收据、合同、报告、论文、简历、信函、手册、表单、证书、演示文稿、电子表格、照片、文档"@
    } else {
        "Invoice, Receipt, Contract, Report, Paper, Resume, Letter, Manual, Form, Certificate, Presentation, Spreadsheet, Photo, Document"@
    }
}

/// The section that tells the model how to fill the template.
pub open spec fn template_text(template: Seq<char>, style: NamingStyle) -> Seq<char> {
    "\n## 命名模板\n按「"@ + effective_template(template) + "」格式输出。变量替换规则：\n- {type} 从以下分类中选最匹配的一个："@
        + type_list(style)
        + "\n- {title} 替换为文档标题/主题的关键词（2-5 个词）\n- {date} 替换为文档日期（YYYYMMDD）\n- {author} 替换为作者/发送方\n- {number} 替换为文档编号\n- 找不到的字段直接省略，不要留占位符\n"@
}

/// The section that tells the model how to fill the template.
pub fn template_section(name_template: &str, naming_style: &str) -> (r: String)
    ensures
        r@ == template_text(name_template@, style_named(naming_style@)),
{
    let mut out = chars_of("\n## 命名模板\n按「");
    let template = chars_of(name_template);
    let trimmed = trim(&template, CharClass::Space);
    if trimmed.len() == 0 {
        push_str(&mut out, "{type}-{title}");
    } else {
        push_all(&mut out, &trimmed);
    }
    push_str(&mut out, "」格式输出。变量替换规则：\n- {type} 从以下分类中选最匹配的一个：");
    match crate::config::naming_style(naming_style) {
        NamingStyle::Localized => {
            push_str(&mut out, "发票、收据、合同、报告、论文、简历、信函、手册、表单、证书、演示文稿、电子表格、照片、文档");
        },
        _ => {
            push_str(
                &mut out,
                "Invoice, Receipt, Contract, Report, Paper, Resume, Letter, Manual, Form, Certificate, Presentation, Spreadsheet, Photo, Document",
            );
        },
    }
    push_str(
        &mut out,
        "\n- {title} 替换为文档标题/主题的关键词（2-5 个词）\n- {date} 替换为文档日期（YYYYMMDD）\n- {author} 替换为作者/发送方\n- {number} 替换为文档编号\n- 找不到的字段直接省略，不要留占位符\n",
    );
    string_of(&out)
}

/// What a prompt is about.
#[derive(Clone, Copy, Debug, PartialEq, Eq, Structural)]
pub enum Subject {
    /// The text of a document, which follows the rules.
    Text,
    /// An image, which is sent beside the prompt.
    Image,
}

/// The opening of a prompt.
pub open spec fn opening(subject: Subject) -> Seq<char> {
    match subject {
        Subject::Text => "你是一个文件命名助手。根据以下文件内容生成一个文件名（不含扩展名）。\n\n## 格式规则（严格遵守，这是唯一的格式标准）\n- 命名风格："@,
        Subject::Image => "你是一个文件命名助手。根据这张图片的内容生成一个文件名（不含扩展名）。\n\n## 格式规则（严格遵守，这是唯一的格式标准）\n- 命名风格："@,
    }
}

/// The directive on dates.
pub open spec fn date_hint(subject: Subject, include_date: bool) -> Seq<char> {
    if !include_date {
        "不要在文件名中包含日期。"@
    } else {
        match subject {
            Subject::Text => "如果文档中包含日期信息，请在文件名末尾附上日期（格式 YYYYMMDD）。"@,
            Subject::Image => "如果图片中包含日期信息，请在文件名末尾附上日期（格式 YYYYMMDD）。"@,
        }
    }
}

/// The directive on abbreviations.
pub open spec fn abbreviation_rule(style: NamingStyle) -> Seq<char> {
    if style == NamingStyle::Localized {
        "缩写词保持原样大写（例如 PDF、NASA）"@
    } else {
        "缩写词也遵循同样规则（例如 FINCH → Finch, NASA → Nasa, PDF → Pdf）"@
    }
}

/// The section with the user's own rules; empty where they are blank.
pub open spec fn custom_text(rules: Seq<char>) -> Seq<char> {
    if blank(rules) {
        Seq::empty()
    } else {
        "\n\n## 用户自定义规则\n"@ + rules
    }
}

/// The view of what a prompt is built from.
pub struct PromptInput {
    pub style: NamingStyle,
    pub include_date: bool,
    pub custom_rules: Seq<char>,
    pub name_template: Seq<char>,
    pub context: Option<FileContextView>,
}

/// What a prompt is built from, read off a configuration and a context.
pub open spec fn prompt_input(config: &AppConfig, context: Option<&FileContext>) -> PromptInput {
    PromptInput {
        style: style_named(config.naming_style@),
        include_date: config.include_date,
        custom_rules: config.custom_rules@,
        name_template: config.name_template@,
        context: opt_context(context),
    }
}

/// The rules of a prompt: the opening, the style, the directives on dates
/// and abbreviations, the demand for a bare legal name, and the sections for
/// the user's rules, the template and the file.
pub open spec fn rules_text(subject: Subject, input: PromptInput) -> Seq<char> {
    opening(subject) + style_text(input.style) + "\n- "@ + date_hint(subject, input.include_date)
        + "\n- "@ + abbreviation_rule(input.style)
        + "\n- 只输出文件名本身，不要解释、不要加引号、不要加扩展名\n- 不含空格和文件系统非法字符（/ \\ : * ? \" < > |）"@
        + custom_text(input.custom_rules) + template_text(input.name_template, input.style)
        + context_text(input.context)
}

/// The prompt for a document: the rules, then the document's text.
pub open spec fn prompt_text(text: Seq<char>, input: PromptInput) -> Seq<char> {
    rules_text(Subject::Text, input) + "\n## 文件内容\n"@ + text
}

/// The prompt for an image: the rules.
pub open spec fn vlm_prompt_text(input: PromptInput) -> Seq<char> {
    rules_text(Subject::Image, input)
}

/// Builds the rules of a prompt.
fn build_rules(subject: Subject, config: &AppConfig, context: Option<&FileContext>) -> (r: Vec<
    char,
>)
    ensures
        r@ == rules_text(subject, prompt_input(config, context)),
{
    let style = config.style();
    let mut out = match subject {
        Subject::Text => chars_of(
            "你是一个文件命名助手。根据以下文件内容生成一个文件名（不含扩展名）。\n\n## 格式规则（严格遵守，这是唯一的格式标准）\n- 命名风格：",
        ),
        Subject::Image => chars_of(
            "你是一个文件命名助手。根据这张图片的内容生成一个文件名（不含扩展名）。\n\n## 格式规则（严格遵守，这是唯一的格式标准）\n- 命名风格：",
        ),
    };
    push_str(&mut out, style_description(config.naming_style.as_str()));
    push_str(&mut out, "\n- ");
    if !config.include_date {
        push_str(&mut out, "不要在文件名中包含日期。");
    } else {
        match subject {
            Subject::Text => {
                push_str(&mut out, "如果文档中包含日期信息，请在文件名末尾附上日期（格式 YYYYMMDD）。");
            },
            Subject::Image => {
                push_str(&mut out, "如果图片中包含日期信息，请在文件名末尾附上日期（格式 YYYYMMDD）。");
            },
        }
    }
    push_str(&mut out, "\n- ");
    match style {
        NamingStyle::Localized => {
            push_str(&mut out, "缩写词保持原样大写（例如 PDF、NASA）");
        },
        _ => {
            push_str(&mut out, "缩写词也遵循同样规则（例如 FINCH → Finch, NASA → Nasa, PDF → Pdf）");
        },
    }
    push_str(
        &mut out,
        "\n- 只输出文件名本身，不要解释、不要加引号、不要加扩展名\n- 不含空格和文件系统非法字符（/ \\ : * ? \" < > |）",
    );
    if !is_blank(config.custom_rules.as_str()) {
        push_str(&mut out, "\n\n## 用户自定义规则\n");
        push_str(&mut out, config.custom_rules.as_str());
    } else {
        assert(out@ + Seq::<char>::empty() == out@);
    }
    let template = template_section(config.name_template.as_str(), config.naming_style.as_str());
    push_str(&mut out, template.as_str());
    let about = context_section(context);
    push_str(&mut out, about.as_str());
    out
}

/// The prompt that asks for a name for the document whose text is `text`.
pub fn build_prompt(text: &str, config: &AppConfig, context: Option<&FileContext>) -> (r: String)
    ensures
        r@ == prompt_text(text@, prompt_input(config, context)),
{
    let mut out = build_rules(Subject::Text, config, context);
    push_str(&mut out, "\n## 文件内容\n");
    push_str(&mut out, text);
    string_of(&out)
}

/// The prompt that asks for a name for the document whose text is `text`.
pub fn build_prompt_public(text: &str, config: &AppConfig, context: Option<&FileContext>) -> (r:
    String)
    ensures
        r@ == prompt_text(text@, prompt_input(config, context)),
{
    build_prompt(text, config, context)
}

/// The prompt that asks for a name for an image.
pub fn build_vlm_prompt(config: &AppConfig, context: Option<&FileContext>) -> (r: String)
    ensures
        r@ == vlm_prompt_text(prompt_input(config, context)),
{
    let out = build_rules(Subject::Image, config, context);
    string_of(&out)
}

/// The prompt depends on nothing but the text, the five settings that
/// `prompt_input` reads and the context: two configurations that agree on
/// those give the same prompt.
pub proof fn lemma_prompt_is_determined(
    text: Seq<char>,
    a: &AppConfig,
    b: &AppConfig,
    context: Option<&FileContext>,
)
    requires
        style_named(a.naming_style@) == style_named(b.naming_style@),
        a.include_date == b.include_date,
        a.custom_rules@ == b.custom_rules@,
        a.name_template@ == b.name_template@,
    ensures
        prompt_text(text, prompt_input(a, context)) == prompt_text(text, prompt_input(b, context)),
        vlm_prompt_text(prompt_input(a, context)) == vlm_prompt_text(prompt_input(b, context)),
{
}

} // verus!
