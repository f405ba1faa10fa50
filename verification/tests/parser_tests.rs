use gem_installer::parser::{GemfileData, ManifestScan};

fn resolve_unpinned(scan: &ManifestScan, version: &str) -> Vec<Option<String>> {
    let mut resolved: Vec<Option<String>> = Vec::new();
    for entry in &scan.entries {
        match &entry.pinned {
            Some(_) => resolved.push(None),
            None => resolved.push(Some(version.to_string())),
        }
    }
    resolved
}

#[test]
fn parse_test() {
    let scan = ManifestScan::scan(
        "
source \"https://rubygems.org\"

gemspec

group :development, :test do
 gem \"docile\", \"~> 1.4.0\"
 gem \"simplecov-html\", \"~> 0.12.3\"
 gem \"i18n\", \"~> 1.8.5\"
 gem \"concurrent-ruby\", \"~> 1.1.9\"\
end",
    );
    let resolved = resolve_unpinned(&scan, "9.9.9");
    let gemfile_data = GemfileData::parse(&scan, &resolved);

    assert!(gemfile_data.is_ok());
    let gemfile_data = gemfile_data.unwrap();
    assert_eq!(gemfile_data.source, "https://rubygems.org");
    assert_eq!(gemfile_data.gems.len(), 4);
}

#[test]
fn parse_test2() {
    let scan = ManifestScan::scan(
        "
source 'https://rubygems.org'

require File.join(File.dirname(__FILE__), 'lib/concurrent-ruby/concurrent/version')
require File.join(File.dirname(__FILE__ ), 'lib/concurrent-ruby-edge/concurrent/edge/version')
require File.join(File.dirname(__FILE__ ), 'lib/concurrent-ruby/concurrent/utility/engine')

no_path = ENV['NO_PATH']
options = no_path ? {} : { path: '.' }

gem 'concurrent-ruby', Concurrent::VERSION, options
gem 'concurrent-ruby-edge', Concurrent::EDGE_VERSION, options
gem 'concurrent-ruby-ext', Concurrent::VERSION, options.merge(platform: :mri)

group :development do
  gem 'rake', (Concurrent.ruby_version :<, 2, 2, 0) ? '~> 12.0' : '~> 13.0'
  gem 'rake-compiler', '~> 1.0', '>= 1.0.7'
  gem 'rake-compiler-dock', '~> 1.0'
  gem 'pry', '~> 0.11', platforms: :mri
end

group :documentation, optional: true do
  gem 'yard', '~> 0.9.0', require: false
  gem 'redcarpet', '~> 3.0', platforms: :mri # understands github markdown
  gem 'md-ruby-eval', '~> 0.6'
end

group :testing do
  gem 'rspec', '~> 3.7'
  gem 'timecop', '~> 0.7.4'
  gem 'sigdump', require: false
end

# made opt-in since it will not install on jruby 1.7
group :coverage, optional: !ENV['COVERAGE'] do
  gem 'simplecov', '~> 0.16.0', require: false
  gem 'coveralls', '~> 0.8.2', require: false
end

group :benchmarks, optional: true do
  gem 'benchmark-ips', '~> 2.7'
  gem 'bench9000'
end",
    );
    let resolved = resolve_unpinned(&scan, "9.9.9");
    let gemfile_data = GemfileData::parse(&scan, &resolved);

    assert!(gemfile_data.is_ok());
    let gemfile_data = gemfile_data.unwrap();
    assert_eq!(gemfile_data.source, "https://rubygems.org");
    assert_eq!(gemfile_data.gems.len(), 17);
}

#[test]
fn parse_single_pinned_gem() {
    let scan = ManifestScan::scan("source \"https://example.test\"\ngem \"alpha\", \"~> 1.2.3\"");
    assert_eq!(scan.source, "https://example.test");
    assert_eq!(scan.entries.len(), 1);
    assert_eq!(scan.entries[0].name, "alpha");
    assert_eq!(scan.entries[0].pinned.as_deref(), Some("1.2.3"));

    let gemfile_data = GemfileData::parse(&scan, &vec![None]).unwrap();
    assert_eq!(gemfile_data.source, "https://example.test");
    assert_eq!(gemfile_data.gems.len(), 1);
    assert_eq!(gemfile_data.gems[0].name, "alpha");
    assert_eq!(gemfile_data.gems[0].version, "1.2.3");
}

#[test]
fn pinned_gem_ignores_lookup_value() {
    let scan = ManifestScan::scan("gem \"alpha\", \"1.2.3\"");
    assert_eq!(scan.entries[0].pinned.as_deref(), Some("1.2.3"));

    let gemfile_data = GemfileData::parse(&scan, &vec![Some("8.8.8".to_string())]).unwrap();
    assert_eq!(gemfile_data.gems[0].version, "1.2.3");
}

#[test]
fn unpinned_gem_takes_lookup_value() {
    let scan = ManifestScan::scan("gem \"beta\"\ngem \"gamma\", \"~> 2.0\"");
    assert_eq!(scan.entries.len(), 2);
    assert!(scan.entries[0].pinned.is_none());
    assert!(scan.entries[1].pinned.is_none());
    assert_eq!(scan.entries[0].source, "https://rubygems.org");

    let resolved = vec![Some("3.1.4".to_string()), Some("2.0.1".to_string())];
    let gemfile_data = GemfileData::parse(&scan, &resolved).unwrap();
    assert_eq!(gemfile_data.gems[0].name, "beta");
    assert_eq!(gemfile_data.gems[0].version, "3.1.4");
    assert_eq!(gemfile_data.gems[1].name, "gamma");
    assert_eq!(gemfile_data.gems[1].version, "2.0.1");
}

#[test]
fn unresolved_gem_fails_parse() {
    let scan = ManifestScan::scan("gem \"beta\"");
    let result = GemfileData::parse(&scan, &vec![None]);
    assert!(result.is_err());
    let gem_installer::parser::ParseError::VersionLookupFailed { gem_name } = result.unwrap_err();
    assert_eq!(gem_name, "beta");
}

#[test]
fn missing_resolution_vector_fails_parse() {
    let scan = ManifestScan::scan("gem \"beta\"");
    let result = GemfileData::parse(&scan, &Vec::new());
    assert!(result.is_err());
}

#[test]
fn last_source_line_wins() {
    let scan = ManifestScan::scan("source 'https://a.test'\nsource 'https://b.test'\ngem \"x\", \"1.0.0\"");
    assert_eq!(scan.source, "https://b.test");
}

#[test]
fn entry_keeps_source_in_effect_at_its_line() {
    let scan = ManifestScan::scan("gem \"early\"\nsource 'https://late.test'\ngem \"late\"");
    assert_eq!(scan.entries[0].source, "https://rubygems.org");
    assert_eq!(scan.entries[1].source, "https://late.test");
    assert_eq!(scan.source, "https://late.test");
}

#[test]
fn two_component_version_is_not_pinned() {
    let scan = ManifestScan::scan("gem 'delta', '~> 1.0'");
    assert_eq!(scan.entries.len(), 1);
    assert_eq!(scan.entries[0].name, "delta");
    assert!(scan.entries[0].pinned.is_none());
}

#[test]
fn non_numeric_second_token_is_not_pinned() {
    let scan = ManifestScan::scan("gem 'epsilon', 'abc'");
    assert!(scan.entries[0].pinned.is_none());
}

#[test]
fn carriage_returns_do_not_reach_the_values() {
    let scan = ManifestScan::scan("source \"https://a.test\"\r\ngem \"eta\", \"7.8.9\"\r\n");
    assert_eq!(scan.source, "https://a.test");
    assert_eq!(scan.entries.len(), 1);
    assert_eq!(scan.entries[0].name, "eta");
    assert_eq!(scan.entries[0].pinned.as_deref(), Some("7.8.9"));
}

#[test]
fn indented_and_unrelated_lines() {
    let scan = ManifestScan::scan("  \t gem 'zeta', '4.5.6'\ngemspec\nrandom words\n\n# gemless");
    assert_eq!(scan.entries.len(), 1);
    assert_eq!(scan.entries[0].name, "zeta");
    assert_eq!(scan.entries[0].pinned.as_deref(), Some("4.5.6"));
}
