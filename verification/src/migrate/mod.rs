pub mod cypress;
pub mod playwright;
pub mod puppeteer;
pub mod rules;
pub mod report;
