use fyla::config::{
    default_naming_style, default_openai_base_url, default_watch_extensions, naming_style,
    AppConfig, NamingStyle, Provider,
};
use fyla::prompt::{
    build_prompt, build_prompt_public, build_vlm_prompt, context_section, style_description,
    template_section, FileContext,
};

fn context() -> FileContext {
    FileContext {
        original_name: "scan0001.pdf".to_string(),
        parent_dir: "Invoices".to_string(),
        sibling_names: vec!["invoice-acme-20240101.pdf".to_string(), "invoice-bolt-20240202.pdf".to_string()],
        modified_at: "2024-08-15".to_string(),
        file_size: "12KB".to_string(),
    }
}

const RULES_HEAD: &str = "\n\n## 格式规则（严格遵守，这是唯一的格式标准）\n- 命名风格：";
const BARE: &str = "\n- 只输出文件名本身，不要解释、不要加引号、不要加扩展名\n- 不含空格和文件系统非法字符（/ \\ : * ? \" < > |）";
const KEBAB: &str = "kebab-case：全小写，连字符分隔。示例：invoice-acme-corp-20240815";
const ENGLISH_TYPES: &str = "Invoice, Receipt, Contract, Report, Paper, Resume, Letter, Manual, Form, Certificate, Presentation, Spreadsheet, Photo, Document";
const CHINESE_TYPES: &str = "发票、收据、合同、报告、论文、简历、信函、手册、表单、证书、演示文稿、电子表格、照片、文档";

fn template(effective: &str, types: &str) -> String {
    format!(
        "\n## 命名模板\n按「{}」格式输出。变量替换规则：\n- {{type}} 从以下分类中选最匹配的一个：{}\n- {{title}} 替换为文档标题/主题的关键词（2-5 个词）\n- {{date}} 替换为文档日期（YYYYMMDD）\n- {{author}} 替换为作者/发送方\n- {{number}} 替换为文档编号\n- 找不到的字段直接省略，不要留占位符\n",
        effective, types
    )
}

#[test]
fn a_fresh_configuration() {
    let c = AppConfig::default();
    assert_eq!(c.provider, "ollama");
    assert_eq!(c.ollama_url, "http://localhost:11434");
    assert_eq!(c.ollama_model, "llama3.2");
    assert_eq!(c.openai_key, "");
    assert_eq!(c.openai_model, "gpt-4o-mini");
    assert_eq!(c.openai_base_url, "https://api.openai.com/v1");
    assert_eq!(c.custom_rules, "");
    assert_eq!(c.naming_style, "kebab-case");
    assert!(!c.include_date);
    assert_eq!(c.watch_folder, "");
    assert_eq!(c.watch_extensions, "pdf");
    assert_eq!(c.name_template, "");
    assert_eq!(c.default_dest_folder, "");
    assert!(!c.auto_categorize);
    assert!(!c.vlm_enabled);
    assert!(c.vlm_same_as_llm);
    assert_eq!(c.vlm_base_url, "");
    assert_eq!(c.vlm_key, "");
    assert_eq!(c.vlm_model, "");
    assert_eq!(default_naming_style(), "kebab-case");
    assert_eq!(default_watch_extensions(), "pdf");
    assert_eq!(default_openai_base_url(), "https://api.openai.com/v1");
    assert_eq!(c.provider(), Provider::Local);
    assert_eq!(c.style(), NamingStyle::Kebab);
}

#[test]
fn providers_and_styles_are_read_off_the_settings() {
    let mut c = AppConfig::default();
    c.provider = "openai".to_string();
    assert_eq!(c.provider(), Provider::Hosted);
    c.provider = "OpenAI".to_string();
    assert_eq!(c.provider(), Provider::Local);
    assert_eq!(naming_style("camelCase"), NamingStyle::Camel);
    assert_eq!(naming_style("PascalCase"), NamingStyle::Pascal);
    assert_eq!(naming_style("snake_case"), NamingStyle::Snake);
    assert_eq!(naming_style("Train-Case"), NamingStyle::Train);
    assert_eq!(naming_style("chinese"), NamingStyle::Localized);
    assert_eq!(naming_style("kebab-case"), NamingStyle::Kebab);
    assert_eq!(naming_style("anything"), NamingStyle::Kebab);
}

#[test]
fn every_style_has_its_directive() {
    assert_eq!(style_description("camelCase"), "camelCase：首词全小写，后续词首字母大写，无分隔符。示例：invoiceAcmeCorp20240815");
    assert_eq!(style_description("PascalCase"), "PascalCase：每个词首字母大写，无分隔符。示例：InvoiceAcmeCorp20240815");
    assert_eq!(style_description("snake_case"), "snake_case：全小写，下划线分隔。示例：invoice_acme_corp_20240815");
    assert_eq!(style_description("Train-Case"), "Train-Case：每个词首字母大写其余小写，连字符分隔。示例：Invoice-Acme-Corp-20240815");
    assert_eq!(style_description("chinese"), "中文命名：使用简体中文，类型与标题之间用连字符分隔。示例：发票-Acme公司合作协议20240815");
    assert_eq!(style_description("kebab-case"), KEBAB);
    assert_eq!(style_description(""), KEBAB);
}

#[test]
fn the_context_section_lists_the_neighbours() {
    assert_eq!(context_section(None), "");
    assert_eq!(
        context_section(Some(&context())),
        "\n## 文件信息\n- 原始文件名: scan0001.pdf\n- 所在目录: Invoices\n- 修改时间: 2024-08-15\n- 文件大小: 12KB\n\n## 同目录已有文件（参考命名风格）\ninvoice-acme-20240101.pdf、invoice-bolt-20240202.pdf\n"
    );
    let mut alone = context();
    alone.sibling_names = vec![];
    assert_eq!(
        context_section(Some(&alone)),
        "\n## 文件信息\n- 原始文件名: scan0001.pdf\n- 所在目录: Invoices\n- 修改时间: 2024-08-15\n- 文件大小: 12KB\n\n## 同目录已有文件（参考命名风格）\n（无）\n"
    );
}

#[test]
fn a_blank_template_falls_back_to_type_and_title() {
    assert_eq!(template_section("", "kebab-case"), template("{type}-{title}", ENGLISH_TYPES));
    assert_eq!(template_section("   ", "snake_case"), template("{type}-{title}", ENGLISH_TYPES));
    assert_eq!(template_section("  {date}_{title} ", "camelCase"), template("{date}_{title}", ENGLISH_TYPES));
    assert_eq!(template_section("{type}{number}", "chinese"), template("{type}{number}", CHINESE_TYPES));
}

#[test]
fn the_prompt_for_a_document() {
    let config = AppConfig::default();
    let expected = format!(
        "你是一个文件命名助手。根据以下文件内容生成一个文件名（不含扩展名）。{}{}\n- 不要在文件名中包含日期。\n- 缩写词也遵循同样规则（例如 FINCH → Finch, NASA → Nasa, PDF → Pdf）{}{}\n## 文件内容\nTotal due: 5",
        RULES_HEAD, KEBAB, BARE, template("{type}-{title}", ENGLISH_TYPES)
    );
    assert_eq!(build_prompt("Total due: 5", &config, None), expected);
    assert_eq!(build_prompt_public("Total due: 5", &config, None), expected);
}

#[test]
fn the_prompt_with_every_section() {
    let mut config = AppConfig::default();
    config.naming_style = "chinese".to_string();
    config.include_date = true;
    config.custom_rules = " 公司名放在最前 ".to_string();
    config.name_template = "{type}-{title}-{date}".to_string();
    let ctx = context();
    let expected = format!(
        "你是一个文件命名助手。根据以下文件内容生成一个文件名（不含扩展名）。{}中文命名：使用简体中文，类型与标题之间用连字符分隔。示例：发票-Acme公司合作协议20240815\n- 如果文档中包含日期信息，请在文件名末尾附上日期（格式 YYYYMMDD）。\n- 缩写词保持原样大写（例如 PDF、NASA）{}\n\n## 用户自定义规则\n 公司名放在最前 {}{}\n## 文件内容\n正文",
        RULES_HEAD,
        BARE,
        template("{type}-{title}-{date}", CHINESE_TYPES),
        context_section(Some(&ctx))
    );
    assert_eq!(build_prompt("正文", &config, Some(&ctx)), expected);
}

#[test]
fn the_prompt_for_an_image() {
    let mut config = AppConfig::default();
    config.include_date = true;
    let ctx = context();
    let expected = format!(
        "你是一个文件命名助手。根据这张图片的内容生成一个文件名（不含扩展名）。{}{}\n- 如果图片中包含日期信息，请在文件名末尾附上日期（格式 YYYYMMDD）。\n- 缩写词也遵循同样规则（例如 FINCH → Finch, NASA → Nasa, PDF → Pdf）{}{}{}",
        RULES_HEAD,
        KEBAB,
        BARE,
        template("{type}-{title}", ENGLISH_TYPES),
        context_section(Some(&ctx))
    );
    assert_eq!(build_vlm_prompt(&config, Some(&ctx)), expected);
    config.include_date = false;
    assert!(build_vlm_prompt(&config, None).contains("\n- 不要在文件名中包含日期。\n"));
}

#[test]
fn the_prompt_does_not_depend_on_the_provider() {
    let a = AppConfig::default();
    let mut b = AppConfig::default();
    b.provider = "openai".to_string();
    b.openai_key = "SECRET-REDACTED".to_string();
    b.watch_folder = "/tmp".to_string();
    assert_eq!(build_prompt("t", &a, None), build_prompt("t", &b, None));
    assert_eq!(build_vlm_prompt(&a, None), build_vlm_prompt(&b, None));
}
