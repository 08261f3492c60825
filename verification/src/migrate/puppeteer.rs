use vstd::prelude::*;
use crate::migrate::rules::{apply_rules, rules_view, apply_rule_table};

verus! {

/// The rewrites that turn a Puppeteer script into a TurboSheet one, in the
/// order they are applied.
pub open spec fn puppeteer_file_rules() -> Seq<(Seq<char>, Seq<char>)> {
    seq![
        ("const puppeteer = require('puppeteer');"@, "// TurboSheet uses ES modules or napi-rs"@),
        ("import puppeteer from 'puppeteer';"@, "import { launch } from 'tsheet';"@),
        ("const { chromium } = require('puppeteer');"@, "import { launch } from 'tsheet';"@),
        ("import { chromium } from 'puppeteer';"@, "import { launch } from 'tsheet';"@),
        ("await puppeteer.launch("@, "const browser = await launch("@),
        ("puppeteer.launch("@, "const browser = await launch("@),
        ("const page = await browser.pages()[0];"@, "// Use newContext().newPage() instead"@),
        ("const page = await browser.newPage();"@, "// const context = await browser.newContext();\n// const page = await context.newPage();"@),
        ("await page.waitForSelector("@, "// Auto-waits in TurboSheet: await page.locator("@),
        ("await page.waitForNavigation("@, "// Auto-waits in TurboSheet: // removed"@),
        ("await page.waitForXPath("@, "await page.locator('xpath="@),
        ("await page.waitForFunction("@, "// Use expect.poll() for custom waits"@),
        ("await page.$eval("@, "await page.evaluate("@),
        ("await page.$$eval("@, "const results = await page.evaluate("@),
        ("await page.type("@, "await page.fill("@),
        ("await page.click("@, "await page.click("@),
        ("await page.hover("@, "await page.hover("@),
        ("await page.setViewport({"@, "// Viewport set in context options:"@),
        ("await page.setGeolocation({"@, "await context.setGeolocation({"@),
        ("await page.screenshot({ path:"@, "await page.screenshot({"@),
        ("fullPage: true"@, "// fullPage: true"@),
        ("await browser.close()"@, "// Browser cleanup automatic"@),
    ]
}

/// A Puppeteer script rewritten for TurboSheet.
pub fn migrate_puppeteer_file(content: String) -> (r: String)
    ensures
        r@ == apply_rules(content@, puppeteer_file_rules()),
{
    let table: Vec<(&str, &str)> = vec![
        ("const puppeteer = require('puppeteer');", "// TurboSheet uses ES modules or napi-rs"),
        ("import puppeteer from 'puppeteer';", "import { launch } from 'tsheet';"),
        ("const { chromium } = require('puppeteer');", "import { launch } from 'tsheet';"),
        ("import { chromium } from 'puppeteer';", "import { launch } from 'tsheet';"),
        ("await puppeteer.launch(", "const browser = await launch("),
        ("puppeteer.launch(", "const browser = await launch("),
        ("const page = await browser.pages()[0];", "// Use newContext().newPage() instead"),
        ("const page = await browser.newPage();", "// const context = await browser.newContext();\n// const page = await context.newPage();"),
        ("await page.waitForSelector(", "// Auto-waits in TurboSheet: await page.locator("),
        ("await page.waitForNavigation(", "// Auto-waits in TurboSheet: // removed"),
        ("await page.waitForXPath(", "await page.locator('xpath="),
        ("await page.waitForFunction(", "// Use expect.poll() for custom waits"),
        ("await page.$eval(", "await page.evaluate("),
        ("await page.$$eval(", "const results = await page.evaluate("),
        ("await page.type(", "await page.fill("),
        ("await page.click(", "await page.click("),
        ("await page.hover(", "await page.hover("),
        ("await page.setViewport({", "// Viewport set in context options:"),
        ("await page.setGeolocation({", "await context.setGeolocation({"),
        ("await page.screenshot({ path:", "await page.screenshot({"),
        ("fullPage: true", "// fullPage: true"),
        ("await browser.close()", "// Browser cleanup automatic"),
    ];
    assert(rules_view(table@) =~= puppeteer_file_rules());
    apply_rule_table(content.as_str(), &table)
}

} // verus!
