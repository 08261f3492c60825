use turbosheet::migrate::cypress::{migrate_cypress_file, migrate_cypress_config};
use turbosheet::migrate::playwright::{migrate_playwright_file, migrate_playwright_config};
use turbosheet::migrate::puppeteer::migrate_puppeteer_file;
use turbosheet::migrate::report::{automated_count, cypress_mappings, cypress_todos, playwright_mappings, playwright_todos, puppeteer_mappings, puppeteer_todos, ApiMapping};

#[test]
fn cypress_test_import_replacement() {
    let input = "import cy from 'cypress';".to_string();
    let result = migrate_cypress_file(input);
    assert!(result.contains("import { test, expect, page } from 'tsheet'"));
}

#[test]
fn test_cy_get_single_quotes() {
    let input = "cy.get('.my-class').click();".to_string();
    let result = migrate_cypress_file(input);
    assert!(result.contains("await page.locator('.my-class'"));
    assert!(!result.contains("await page.locator(\".my-class'"));
}

#[test]
fn test_cy_get_double_quotes() {
    let input = r#"cy.get(".my-class").click();"#.to_string();
    let result = migrate_cypress_file(input);
    assert!(result.contains("await page.locator(\".my-class\""));
}

#[test]
fn test_cy_get_backtick_quotes() {
    let input = "cy.get(`.my-class`).click();".to_string();
    let result = migrate_cypress_file(input);
    assert!(result.contains("await page.locator(`.my-class`"));
}

#[test]
fn test_cy_contains_single_quotes() {
    let input = "cy.contains('Submit').click();".to_string();
    let result = migrate_cypress_file(input);
    assert!(result.contains("await page.getByText('Submit'"));
    assert!(!result.contains("await page.getByText(\"Submit'"));
}

#[test]
fn test_cy_contains_double_quotes() {
    let input = r#"cy.contains("Submit").click();"#.to_string();
    let result = migrate_cypress_file(input);
    assert!(result.contains("await page.getByText(\"Submit\""));
}

#[test]
fn test_cy_visit_replacement() {
    let input = "cy.visit('/dashboard');".to_string();
    let result = migrate_cypress_file(input);
    assert!(result.contains("await page.goto('/dashboard')"));
}

#[test]
fn test_cy_type_replacement() {
    let input = "cy.get('input').type('hello');".to_string();
    let result = migrate_cypress_file(input);
    assert!(result.contains(".fill('hello')"));
}

#[test]
fn test_cy_clear_replacement() {
    let input = "cy.get('input').clear();".to_string();
    let result = migrate_cypress_file(input);
    assert!(result.contains(".fill('')"));
}

#[test]
fn test_describe_it_replacement() {
    let input = "describe('suite', () => { it('test', () => { }); });".to_string();
    let result = migrate_cypress_file(input);
    assert!(result.contains("test.describe('suite'"));
    assert!(result.contains("test('test'"));
}

#[test]
fn test_before_each_replacement() {
    let input = "beforeEach(() => { cy.visit('/'); });".to_string();
    let result = migrate_cypress_file(input);
    assert!(result.contains("test.beforeEach(async () =>"));
}

#[test]
fn test_intercept_callback_conversion() {
    let input =
        "cy.intercept('GET', '/api/data', { times: 1 }, (req, res) => { res.json({ ok: true }); });"
            .to_string();
    let result = migrate_cypress_file(input);
    assert!(result.contains("async (route) =>"));
    assert!(result.contains("TODO: Replace body"));
}

#[test]
fn test_should_replacement() {
    let input = "cy.get('.btn').should('be.visible');".to_string();
    let result = migrate_cypress_file(input);
    assert!(result.contains("expect(locator).toBeVisible()"));
}

#[test]
fn test_intercept_http_methods() {
    let input = "cy.intercept('POST', '/api/data', (req) => { req.reply({}); });".to_string();
    let result = migrate_cypress_file(input);
    assert!(result.contains("await page.route('**"));
}

#[test]
fn test_cypress_config_replacement() {
    let input =
        "import { defineConfig } from 'cypress'\nexport default defineConfig({ e2e: { specPattern: 'cypress/**/*.cy.ts' } })"
            .to_string();
    let result = migrate_cypress_config(input);
    assert!(result.contains("from 'tsheet'"));
    assert!(result.contains("// Projects for cross-browser testing"));
}

#[test]
fn test_cypress_config_viewport() {
    let input = "viewportWidth: 1280,\nviewportHeight: 720,".to_string();
    let result = migrate_cypress_config(input);
    assert!(result.contains("viewport:"));
}

#[test]
fn playwright_test_import_replacement() {
    let input = "import { test, expect } from '@playwright/test';".to_string();
    let result = migrate_playwright_file(input);
    assert!(result.contains("import { test, expect } from 'tsheet'"));
}

#[test]
fn test_from_playwright_replacement() {
    let input = "from 'playwright'".to_string();
    let result = migrate_playwright_file(input);
    assert!(result.contains("from 'tsheet'"));
    assert!(!result.contains("from 'turbo-sheet'"));
}

#[test]
fn playwright_test_waitforselector_replacement() {
    let input = "page.waitForSelector('.my-class');".to_string();
    let result = migrate_playwright_file(input);
    assert!(result.contains("Auto-waits"));
    assert!(!result.contains("page.waitForSelector("));
}

#[test]
fn playwright_test_dollar_eval() {
    let input = "const text = await page.$eval('#el', el => el.textContent);".to_string();
    let result = migrate_playwright_file(input);
    assert!(!result.contains("page.$eval("));
    assert!(result.contains("page.evaluate("));
}

#[test]
fn test_dollar_dollar_eval_has_comment() {
    let input = "const items = await page.$$eval('.list li', els => els.length);".to_string();
    let result = migrate_playwright_file(input);
    assert!(result.contains("$$eval") || result.contains("querySelectorAll"));
    assert!(result.contains("page.evaluate("));
}

#[test]
fn test_cross_browser_import() {
    let input = "import { chromium, firefox, webkit } from 'playwright';".to_string();
    let result = migrate_playwright_file(input);
    assert!(result.contains("Cross-browser support built-in"));
}

#[test]
fn test_config_replacement() {
    let input = "import { defineConfig } from '@playwright/test'".to_string();
    let result = migrate_playwright_config(input);
    assert!(result.contains("from 'tsheet'"));
}

#[test]
fn test_config_webserver() {
    let input =
        "webServer: {\n  command: 'npm start',\n  port: 3000,\n  timeout: 10000,\n  reuseExistingServer: true,\n}"
            .to_string();
    let result = migrate_playwright_config(input);
    assert!(result.contains("globalSetup"));
    assert!(result.contains("//  command:"));
    assert!(result.contains("//  port:"));
    assert!(result.contains("//  timeout:"));
    assert!(result.contains("//  reuseExistingServer:"));
}

#[test]
fn test_import_require_replacement() {
    let input = "const puppeteer = require('puppeteer');".to_string();
    let result = migrate_puppeteer_file(input);
    assert!(!result.contains("require('puppeteer')"));
    assert!(result.contains("// TurboSheet uses ES modules or napi-rs"));
}

#[test]
fn test_import_esm_replacement() {
    let input = "import puppeteer from 'puppeteer';".to_string();
    let result = migrate_puppeteer_file(input);
    assert!(result.contains("import { launch } from 'tsheet'"));
}

#[test]
fn test_launch_replacement() {
    let input = "const browser = await puppeteer.launch({ headless: true });".to_string();
    let result = migrate_puppeteer_file(input);
    assert!(!result.contains("puppeteer.launch("));
    assert!(result.contains("await launch("));
}

#[test]
fn test_newpage_replacement() {
    let input = "const page = await browser.newPage();".to_string();
    let result = migrate_puppeteer_file(input);
    assert!(result.contains("newContext()"));
}

#[test]
fn puppeteer_test_waitforselector_replacement() {
    let input = "await page.waitForSelector('.my-class');".to_string();
    let result = migrate_puppeteer_file(input);
    assert!(!result.contains("waitForSelector("));
    assert!(result.contains("Auto-waits"));
}

#[test]
fn test_type_to_fill() {
    let input = "await page.type('#input', 'hello');".to_string();
    let result = migrate_puppeteer_file(input);
    assert!(!result.contains("page.type("));
    assert!(result.contains("page.fill("));
}

#[test]
fn puppeteer_test_dollar_eval() {
    let input = "const text = await page.$eval('#el', el => el.textContent);".to_string();
    let result = migrate_puppeteer_file(input);
    assert!(!result.contains("page.$eval("));
    assert!(result.contains("page.evaluate("));
}

#[test]
fn test_dollar_dollar_eval() {
    let input = "const items = await page.$$eval('.list li', els => els.length);".to_string();
    let result = migrate_puppeteer_file(input);
    assert!(!result.contains("page.$$eval("));
    assert!(result.contains("const results = await page.evaluate("));
}

#[test]
fn test_width_not_replaced_outside_viewport() {
    let input = r#"const width = 1920;
const height = 1080;
const obj = { width: width, height: height };"#
        .to_string();
    let result = migrate_puppeteer_file(input);
    // width: and height: should NOT be replaced outside setViewport context
    assert!(result.contains("const width = 1920"));
    assert!(result.contains("width: width"));
    assert!(result.contains("height: height"));
}

#[test]
fn test_type_png_not_replaced_outside_screenshot() {
    let input = r#"const format: 'png' | 'jpeg' = 'png';
const opts = { type: 'png' };"#
        .to_string();
    let result = migrate_puppeteer_file(input);
    // type: 'png' should NOT be globally replaced
    assert!(result.contains("type: 'png'") || result.contains("'png'"));
}

#[test]
fn test_screenshot_replacement() {
    let input =
        "await page.screenshot({ path: 'screenshot.png', fullPage: true });".to_string();
    let result = migrate_puppeteer_file(input);
    assert!(result.contains("fullPage: true"));
}

#[test]
fn test_setviewport_replacement() {
    let input = "await page.setViewport({ width: 1920, height: 1080 });".to_string();
    let result = migrate_puppeteer_file(input);
    assert!(result.contains("Viewport set in context options"));
}

#[test]
fn cypress_file_rewrites_a_whole_test() {
    let input = "describe('login', () => {\n  beforeEach(() => { cy.visit('/login'); });\n  it('works', () => {\n    cy.get('#user').type('bob');\n    cy.contains('Submit').click();\n  });\n});".to_string();
    let expected = "test.describe('login', () => {\n  test.beforeEach(async () => { await page.goto('/login'); });\n  test('works', () => {\n    await page.locator('#user').fill('bob');\n    await page.getByText('Submit').click();\n  });\n});";
    assert_eq!(migrate_cypress_file(input), expected);
}

#[test]
fn migrations_leave_unrelated_text_alone() {
    let text = "const x = 1;\nfunction f() { return x; }";
    assert_eq!(migrate_cypress_file(text.to_string()), text);
    assert_eq!(migrate_playwright_file(text.to_string()), text);
    assert_eq!(migrate_puppeteer_file(text.to_string()), text);
    assert_eq!(migrate_cypress_config(text.to_string()), text);
    assert_eq!(migrate_playwright_config(text.to_string()), text);
}

#[test]
fn playwright_config_comments_out_server_settings_exactly() {
    let input = "webServer: {\n  command: 'npm start',\n  port: 3000,\n}".to_string();
    assert_eq!(
        migrate_playwright_config(input),
        "// Use globalSetup in tsheet.config.ts instead of webServer {\n//  command: 'npm start',\n//  port: 3000,\n}"
    );
}

#[test]
fn puppeteer_launch_and_close() {
    let input = "const browser = await puppeteer.launch();\nawait browser.close();".to_string();
    assert_eq!(
        migrate_puppeteer_file(input),
        "const browser = const browser = await launch();\n// Browser cleanup automatic;"
    );
}

#[test]
fn cypress_literal_commands_rewritten() {
    assert_eq!(migrate_cypress_file("cy.click()".to_string()), ".click()");
    assert_eq!(migrate_cypress_file("cy.dblclick()".to_string()), ".dblclick()");
    assert_eq!(migrate_cypress_file("cy.rightclick()".to_string()), ".click({ button: 'right' })");
    assert_eq!(migrate_cypress_file("cy.type('x')".to_string()), ".fill('x')");
    assert_eq!(migrate_cypress_file("cy.clear()".to_string()), ".fill('')");
    assert_eq!(migrate_cypress_file("cy.should('be.visible')".to_string()), "expect(locator).toBeVisible()");
    assert_eq!(migrate_cypress_file("cy.should('exist')".to_string()), "// TurboSheet auto-waits for element existence");
}

fn coverage_percent(mappings: &Vec<ApiMapping>) -> f64 {
    if mappings.is_empty() {
        0.0
    } else {
        (automated_count(mappings) as f64 / mappings.len() as f64) * 100.0
    }
}

#[test]
fn cypress_test_coverage_calculation() {
    let mappings = cypress_mappings();
    assert!(coverage_percent(&mappings) > 0.0);
    assert!(!mappings.is_empty());
    assert_eq!(cypress_todos("test.cy.ts")[0].file, "test.cy.ts");
}

#[test]
fn playwright_test_new_mappings_exist() {
    let mappings = playwright_mappings();
    assert!(mappings.iter().any(|m| m.original.contains("addInitScript")), "addInitScript mapping should exist");
    assert!(mappings.iter().any(|m| m.original.contains("addStyleTag")), "addStyleTag mapping should exist");
    assert!(mappings.iter().any(|m| m.original.contains("addScriptTag")), "addScriptTag mapping should exist");
}

#[test]
fn playwright_test_coverage_calculation() {
    let mappings = playwright_mappings();
    assert!(coverage_percent(&mappings) > 0.0);
    assert!(!mappings.is_empty());
    assert_eq!(playwright_todos("test.spec.ts").len(), 2);
}

#[test]
fn puppeteer_test_coverage_calculation() {
    let mappings = puppeteer_mappings();
    assert!(coverage_percent(&mappings) > 0.0);
    assert!(coverage_percent(&mappings) < 100.0);
    assert!(!mappings.is_empty());
    assert_eq!(puppeteer_todos("test.js")[2].severity, "critical");
}

#[test]
fn puppeteer_test_new_mappings_exist() {
    let mappings = puppeteer_mappings();
    assert!(mappings.iter().any(|m| m.original.contains("emulateNetworkConditions")), "emulateNetworkConditions mapping should exist");
    assert!(mappings.iter().any(|m| m.original.contains("screencast")), "screencast mapping should exist");
    assert!(mappings.iter().any(|m| m.original.contains("setCookie")), "setCookie mapping should exist");
}

#[test]
fn test_emulate_is_not_automated() {
    let mappings = puppeteer_mappings();
    let emulate = mappings.iter().find(|m| m.original.contains("emulate(")).unwrap();
    assert!(!emulate.automated, "page.emulate() should not be marked automated (no replacement exists)");
}

#[test]
fn mapping_tables_automated_counts() {
    assert_eq!((automated_count(&cypress_mappings()), cypress_mappings().len()), (13, 16));
    assert_eq!((automated_count(&playwright_mappings()), playwright_mappings().len()), (12, 18));
    assert_eq!((automated_count(&puppeteer_mappings()), puppeteer_mappings().len()), (12, 23));
}
