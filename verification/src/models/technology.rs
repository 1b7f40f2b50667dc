//! The technologies that can be recognised.
//!
//! A [`Technology`] is a generic term to name a software, a programming
//! language, a web server, a JavaScript library, a CMS and more.
//!
//! It's possible to search only for a given set of technologies. It's
//! mainly useful in HTTP scans, since it allows to send less requests.

use super::reqres::{resolve_path, UrlRequest};
use super::ScanType;
use vstd::prelude::*;

verus! {

/// An enumeration to represent the technologies that can be identified.
/// In practice it is useful mainly for the web technologies to send only
/// HTTP requests needed to identify the given technologies.
/// As an example, it's not needed to send a request at /phpinfo.php
/// if we want to identify only the JavaScript libraries.
#[derive(Clone, Copy, Debug, PartialEq, Eq, Structural)]
pub enum Technology {
    Dovecot,
    Exim,
    MariaDB,
    MySQL,
    OpenSSH,
    ProFTPD,
    PureFTPd,
    /// OS is generic for all OSes.
    /// It can be given as CLI input (with -t), but the specific OSes,
    /// on the other hand, cannot be given as input, they can only be returned
    /// in findings.
    OS,
    Ubuntu,
    Debian,
    CentOS,
    Fedora,
    Unix,
    OracleLinux,
    FreeBSD,
    OpenBSD,
    NetBSD,
    AlmaLinux,
    PHP,
    PhpMyAdmin,
    Typo3,
    WordPress,
    Drupal,
    /// Apache httpd
    Httpd,
    Tomcat,
    Nginx,
    OpenSSL,
    JQuery,
    ReactJS,
    Handlebars,
    Lodash,
    AngularJS,
    Gsap,
    Bootstrap,
    Angular,
    Plesk,
    CKEditor,
    Highcharts,
    // WPP = WordPress Plugin
    WPPYoastSEO,
    WPPRevSlider,
    WPPJSComposer,
    WPPContactForm,
    Melis,
    WPPElementor,
    WPPElementsReadyLite,
    WPPGTranslate,
    WPPWooCommerce,
    // WPT = WordPress Theme
    WPTDivi,
    WPPClassicEditor,
    WPPAkismet,
    WPPWpformsLite,
    WPPAllInOneWpMigration,
    WPPReallySimpleSSL,
    WPPJetpack,
    WPPLiteSpeedCache,
    WPPAllInOneSEO,
    WPPWordfence,
    WPPWpMailSmtp,
    WPPMc4wp,
    WPPSpectra,
    SquirrelMail,
    PhoneSystem3CX,
    Prestashop,
    Jira,
    Twisted,
    TwistedWeb,
    Symfony,
    TinyMCE,
    JQueryUI,
    WPPLayerSlider,
    WPPWpMembers,
    WPPForminator,
    Horde,
    Knockout,
    WPPWpSuperCache,
    WPPEmailSubscribers,
    WPPBetterSearchReplace,
    WPPAdvancedCustomFields,
    WPPHealthCheck,
    JQueryMobile,
}

/// The view of one entry of a request plan: `None` stands for the main URL
/// itself, `Some(path)` for `path` resolved against the main URL; the flag
/// tells whether the JavaScript files of the page must be fetched too.
pub open spec fn plan_entry_view(e: (Option<&str>, bool)) -> (Option<Seq<char>>, bool) {
    match e.0 {
        Some(p) => (Some(p@), e.1),
        None => (None, e.1),
    }
}

/// The request that one entry of a request plan stands for, given the main URL.
pub open spec fn resolve_plan_entry(main_url: Seq<char>, e: (Option<Seq<char>>, bool)) -> (Seq<char>, bool) {
    match e.0 {
        Some(p) => (resolve_path(main_url, p), e.1),
        None => (main_url, e.1),
    }
}

impl Technology {
    /// The scan types matching the technology. Most technologies are
    /// HTTP-related, so only the specific ones are listed.
    pub open spec fn spec_scans(self) -> Seq<ScanType> {
        match self {
            Technology::Dovecot | Technology::Exim => seq![ScanType::Tcp],
            Technology::MariaDB | Technology::MySQL => seq![ScanType::Tcp],
            Technology::OpenSSH | Technology::ProFTPD | Technology::PureFTPd => seq![ScanType::Tcp],
            Technology::OS => seq![ScanType::Tcp, ScanType::Http],
            _ => seq![ScanType::Http],
        }
    }

    /// Returns the scan types matching the technology.
    pub fn get_scans(&self) -> (r: Vec<ScanType>)
        ensures
            r@ == self.spec_scans(),
    {
        match self {
            Technology::Dovecot | Technology::Exim => vec![ScanType::Tcp],
            Technology::MariaDB | Technology::MySQL => vec![ScanType::Tcp],
            Technology::OpenSSH | Technology::ProFTPD | Technology::PureFTPd => vec![ScanType::Tcp],
            Technology::OS => vec![ScanType::Tcp, ScanType::Http],
            _ => vec![ScanType::Http],
        }
    }

    /// The CPE part, vendor and product of the technology.
    pub open spec fn spec_cpe_part_vendor_product(self) -> (Seq<char>, Seq<char>, Seq<char>) {
        match self {
            Technology::Dovecot => ("a"@, "dovecot"@, "dovecot"@),
            Technology::Exim => ("a"@, "exim"@, "exim"@),
            Technology::MariaDB => ("a"@, "mariadb"@, "mariadb"@),
            Technology::MySQL => ("a"@, "oracle"@, "mysql_server"@),
            Technology::OpenSSH => ("a"@, "openbsd"@, "openssh"@),
            Technology::ProFTPD => ("a"@, "proftpd_project"@, "proftpd"@),
            Technology::PureFTPd => ("a"@, "pureftpd"@, "pure-ftpd"@),
            Technology::OS => (""@, ""@, ""@),
            Technology::Ubuntu => ("o"@, "canonical"@, "ubuntu_linux"@),
            Technology::Debian => ("o"@, "debian"@, "debian_linux"@),
            Technology::Fedora => ("o"@, "fedoraproject"@, "fedora"@),
            Technology::CentOS => ("o"@, "centos"@, "centos"@),
            Technology::AlmaLinux => ("o"@, "alma"@, "linux"@),
            Technology::OracleLinux => ("o"@, "oracle"@, "linux"@),
            Technology::FreeBSD => ("o"@, "freebsd"@, "freebsd"@),
            Technology::OpenBSD => ("o"@, "openbsd"@, "openbsd"@),
            Technology::NetBSD => ("o"@, "netbsd"@, "netbsd"@),
            Technology::Unix => ("o"@, "unix"@, "unix"@),
            Technology::PHP => ("a"@, "php"@, "php"@),
            Technology::PhpMyAdmin => ("a"@, "phpmyadmin"@, "phpmyadmin"@),
            Technology::Typo3 => ("a"@, "typo3"@, "typo3"@),
            Technology::WordPress => ("a"@, "wordpress"@, "wordpress"@),
            Technology::Drupal => ("a"@, "drupal"@, "drupal"@),
            Technology::Httpd => ("a"@, "apache"@, "httpd_server"@),
            Technology::Tomcat => ("a"@, "apache"@, "tomcat"@),
            Technology::Nginx => ("a"@, "nginx"@, "nginx"@),
            Technology::OpenSSL => ("a"@, "openssl"@, "openssl"@),
            Technology::JQuery => ("a"@, "jquery"@, "jquery"@),
            Technology::ReactJS => ("a"@, "facebook"@, "react"@),
            Technology::Handlebars => ("a"@, "handlebarsjs"@, "handlebars"@),
            Technology::Lodash => ("a"@, "lodash"@, "lodash"@),
            Technology::AngularJS => ("a"@, "angularjs"@, "angular"@),
            Technology::Gsap => ("a"@, "greensock"@, "greensock_animation_platform"@),
            Technology::Bootstrap => ("a"@, "getbootstrap"@, "bootstrap"@),
            Technology::Angular => ("a"@, "angular"@, "angular"@),
            Technology::Plesk => ("a"@, "plesk"@, "plesk"@),
            Technology::CKEditor => ("a"@, "ckeditor"@, "ckeditor"@),
            Technology::Highcharts => ("a"@, "highcharts"@, "highcharts"@),
            Technology::WPPYoastSEO => ("a"@, "yoast"@, "yoastseo"@),
            Technology::WPPRevSlider => ("a"@, "themepunch"@, "slider_revolution"@),
            Technology::WPPJSComposer => ("a"@, "wpbakery"@, "page_builder"@),
            Technology::WPPContactForm => ("a"@, "rocklobster"@, "contact_form_7"@),
            Technology::Melis => ("a"@, "melistechnology"@, "meliscms"@),
            Technology::WPPElementor => ("a"@, "webtechstreet"@, "elementor_addon_elements"@),
            Technology::WPPElementsReadyLite => ("a"@, ""@, ""@),
            Technology::WPPGTranslate => ("a"@, "gtranslate"@, "translate_wordpress_with_gtranslate"@),
            Technology::WPPWooCommerce => ("a"@, "woocommerce"@, "woocommerce"@),
            Technology::WPTDivi => ("a"@, "elegant_themes"@, "divi"@),
            Technology::WPPClassicEditor => ("a"@, ""@, ""@),
            Technology::WPPAkismet => ("a"@, "automattic"@, "akismet"@),
            Technology::WPPWpformsLite => ("a"@, "wpforms"@, "wpforms"@),
            Technology::WPPAllInOneWpMigration => ("a"@, "servmask"@, "all-in-one_wp_migration"@),
            Technology::WPPReallySimpleSSL => ("a"@, "really-simple-plugins"@, "really-simple-ssl"@),
            Technology::WPPJetpack => ("a"@, "automattic"@, "jetpack"@),
            Technology::WPPLiteSpeedCache => ("a"@, "litespeedtech"@, "litespeed_cache"@),
            Technology::WPPAllInOneSEO => ("a"@, "aioseo"@, "all_in_one_seo"@),
            Technology::WPPWordfence => ("a"@, ""@, ""@),
            Technology::WPPWpMailSmtp => ("a"@, "wpforms"@, "wp_mail_smtp"@),
            Technology::WPPMc4wp => ("a"@, "mailchimp_for_wordpress_project"@, "mailchimp_for_wordpress"@),
            Technology::WPPSpectra => ("a"@, "brainstormforce"@, "spectra"@),
            Technology::SquirrelMail => ("a"@, "squirrelmail"@, "squirrelmail"@),
            Technology::PhoneSystem3CX => ("a"@, "3cx"@, "3cx"@),
            Technology::Prestashop => ("a"@, "prestashop"@, "prestashop"@),
            Technology::Jira => ("a"@, "atlassian"@, "jira"@),
            Technology::Twisted => ("a"@, "twistedmatrix"@, "twisted"@),
            Technology::TwistedWeb => ("a"@, "twistedmatrix"@, "twistedweb"@),
            Technology::Symfony => ("a"@, "sensiolabs"@, "symfony"@),
            Technology::TinyMCE => ("a"@, "tiny"@, "tinymce"@),
            Technology::JQueryUI => ("a"@, "jqueryui"@, "jquery_ui"@),
            Technology::WPPLayerSlider => ("a"@, "layslider"@, "layslider"@),
            Technology::WPPWpMembers => ("a"@, "wp-members_project"@, "wp-members"@),
            Technology::WPPForminator => ("a"@, "incsub"@, "forminator"@),
            Technology::Horde => ("a"@, "horde"@, "groupware"@),
            Technology::Knockout => ("a"@, "knockoutjs"@, "knockout"@),
            Technology::WPPWpSuperCache => ("a"@, "automattic"@, "wp_super_cache"@),
            Technology::WPPEmailSubscribers => ("a"@, "icegram"@, "email_subscribers"@),
            Technology::WPPBetterSearchReplace => ("a"@, "wpengine"@, "better_search_replace"@),
            Technology::WPPAdvancedCustomFields => ("a"@, "advancedcustomfields"@, "advanced_custom_fields"@),
            Technology::WPPHealthCheck => ("a"@, "wordpress"@, "health_check_\\&_troubleshooting"@),
            Technology::JQueryMobile => ("a"@, "jquery"@, "jquery_mobile"@),
        }
    }

    /// Returns the CPE part, vendor and product as a tuple.
    /// Example: ("a", "jquery", "jquery")
    pub fn get_cpe_part_vendor_product(&self) -> (r: (String, String, String))
        ensures
            (r.0@, r.1@, r.2@) == self.spec_cpe_part_vendor_product(),
    {
        let (part, vendor, product): (&str, &str, &str) = match self {
            Technology::Dovecot => ("a", "dovecot", "dovecot"),
            Technology::Exim => ("a", "exim", "exim"),
            Technology::MariaDB => ("a", "mariadb", "mariadb"),
            Technology::MySQL => ("a", "oracle", "mysql_server"),
            Technology::OpenSSH => ("a", "openbsd", "openssh"),
            Technology::ProFTPD => ("a", "proftpd_project", "proftpd"),
            Technology::PureFTPd => ("a", "pureftpd", "pure-ftpd"),
            Technology::OS => ("", "", ""),
            Technology::Ubuntu => ("o", "canonical", "ubuntu_linux"),
            Technology::Debian => ("o", "debian", "debian_linux"),
            Technology::Fedora => ("o", "fedoraproject", "fedora"),
            Technology::CentOS => ("o", "centos", "centos"),
            Technology::AlmaLinux => ("o", "alma", "linux"),
            Technology::OracleLinux => ("o", "oracle", "linux"),
            Technology::FreeBSD => ("o", "freebsd", "freebsd"),
            Technology::OpenBSD => ("o", "openbsd", "openbsd"),
            Technology::NetBSD => ("o", "netbsd", "netbsd"),
            Technology::Unix => ("o", "unix", "unix"),
            Technology::PHP => ("a", "php", "php"),
            Technology::PhpMyAdmin => ("a", "phpmyadmin", "phpmyadmin"),
            Technology::Typo3 => ("a", "typo3", "typo3"),
            Technology::WordPress => ("a", "wordpress", "wordpress"),
            Technology::Drupal => ("a", "drupal", "drupal"),
            Technology::Httpd => ("a", "apache", "httpd_server"),
            Technology::Tomcat => ("a", "apache", "tomcat"),
            Technology::Nginx => ("a", "nginx", "nginx"),
            Technology::OpenSSL => ("a", "openssl", "openssl"),
            Technology::JQuery => ("a", "jquery", "jquery"),
            Technology::ReactJS => ("a", "facebook", "react"),
            Technology::Handlebars => ("a", "handlebarsjs", "handlebars"),
            Technology::Lodash => ("a", "lodash", "lodash"),
            Technology::AngularJS => ("a", "angularjs", "angular"),
            Technology::Gsap => ("a", "greensock", "greensock_animation_platform"),
            Technology::Bootstrap => ("a", "getbootstrap", "bootstrap"),
            Technology::Angular => ("a", "angular", "angular"),
            Technology::Plesk => ("a", "plesk", "plesk"),
            Technology::CKEditor => ("a", "ckeditor", "ckeditor"),
            Technology::Highcharts => ("a", "highcharts", "highcharts"),
            Technology::WPPYoastSEO => ("a", "yoast", "yoastseo"),
            Technology::WPPRevSlider => ("a", "themepunch", "slider_revolution"),
            Technology::WPPJSComposer => ("a", "wpbakery", "page_builder"),
            Technology::WPPContactForm => ("a", "rocklobster", "contact_form_7"),
            Technology::Melis => ("a", "melistechnology", "meliscms"),
            Technology::WPPElementor => ("a", "webtechstreet", "elementor_addon_elements"),
            Technology::WPPElementsReadyLite => ("a", "", ""),
            Technology::WPPGTranslate => ("a", "gtranslate", "translate_wordpress_with_gtranslate"),
            Technology::WPPWooCommerce => ("a", "woocommerce", "woocommerce"),
            Technology::WPTDivi => ("a", "elegant_themes", "divi"),
            Technology::WPPClassicEditor => ("a", "", ""),
            Technology::WPPAkismet => ("a", "automattic", "akismet"),
            Technology::WPPWpformsLite => ("a", "wpforms", "wpforms"),
            Technology::WPPAllInOneWpMigration => ("a", "servmask", "all-in-one_wp_migration"),
            Technology::WPPReallySimpleSSL => ("a", "really-simple-plugins", "really-simple-ssl"),
            Technology::WPPJetpack => ("a", "automattic", "jetpack"),
            Technology::WPPLiteSpeedCache => ("a", "litespeedtech", "litespeed_cache"),
            Technology::WPPAllInOneSEO => ("a", "aioseo", "all_in_one_seo"),
            Technology::WPPWordfence => ("a", "", ""),
            Technology::WPPWpMailSmtp => ("a", "wpforms", "wp_mail_smtp"),
            Technology::WPPMc4wp => ("a", "mailchimp_for_wordpress_project", "mailchimp_for_wordpress"),
            Technology::WPPSpectra => ("a", "brainstormforce", "spectra"),
            Technology::SquirrelMail => ("a", "squirrelmail", "squirrelmail"),
            Technology::PhoneSystem3CX => ("a", "3cx", "3cx"),
            Technology::Prestashop => ("a", "prestashop", "prestashop"),
            Technology::Jira => ("a", "atlassian", "jira"),
            Technology::Twisted => ("a", "twistedmatrix", "twisted"),
            Technology::TwistedWeb => ("a", "twistedmatrix", "twistedweb"),
            Technology::Symfony => ("a", "sensiolabs", "symfony"),
            Technology::TinyMCE => ("a", "tiny", "tinymce"),
            Technology::JQueryUI => ("a", "jqueryui", "jquery_ui"),
            Technology::WPPLayerSlider => ("a", "layslider", "layslider"),
            Technology::WPPWpMembers => ("a", "wp-members_project", "wp-members"),
            Technology::WPPForminator => ("a", "incsub", "forminator"),
            Technology::Horde => ("a", "horde", "groupware"),
            Technology::Knockout => ("a", "knockoutjs", "knockout"),
            Technology::WPPWpSuperCache => ("a", "automattic", "wp_super_cache"),
            Technology::WPPEmailSubscribers => ("a", "icegram", "email_subscribers"),
            Technology::WPPBetterSearchReplace => ("a", "wpengine", "better_search_replace"),
            Technology::WPPAdvancedCustomFields => ("a", "advancedcustomfields", "advanced_custom_fields"),
            Technology::WPPHealthCheck => ("a", "wordpress", "health_check_\\&_troubleshooting"),
            Technology::JQueryMobile => ("a", "jquery", "jquery_mobile"),
        };
        (part.to_owned(), vendor.to_owned(), product.to_owned())
    }

    /// Checks whether the technology supports the given scan type.
    pub fn supports_scan(&self, scan_type: ScanType) -> (r: bool)
        ensures
            r == self.spec_scans().contains(scan_type),
    {
        let scans = self.get_scans();
        let mut i: usize = 0;
        while i < scans.len()
            invariant
                i <= scans.len(),
                scans@ == self.spec_scans(),
                forall|j: int| 0 <= j < i ==> scans@[j] != scan_type,
            decreases scans.len() - i,
        {
            if scans[i] == scan_type {
                return true;
            }
            i += 1;
        }
        false
    }

    /// The requests that reveal a technology that supports HTTP scans.
    pub open spec fn spec_http_plan(self) -> Seq<(Option<Seq<char>>, bool)> {
        match self {
            Technology::PHP => seq![
                (None, false),
                (Some("/phpinfo.php"@), false),
                (Some("/info.php"@), false),
                (Some("phpinfo.php"@), false),
                (Some("info.php"@), false),
                (Some("/pageNotFoundNotFound"@), false),
                (Some("/phpmyadmin/"@), false),
                (Some("_profiler/phpinfo"@), false),
            ],
            Technology::Httpd | Technology::Nginx | Technology::OpenSSL => seq![
                (None, false),
                (Some("/pageNotFoundNotFound"@), false),
                (Some("/phpmyadmin/"@), false),
                (Some("/..;/..;/"@), false),
            ],
            Technology::Tomcat => seq![
                (Some("/pageNotFoundNotFound"@), false),
                (Some("/..;/..;/"@), false),
                (Some("/..;/status.html"@), false),
            ],
            Technology::PhpMyAdmin => seq![
                (Some("doc/html/index.html"@), false),
                (Some("/phpmyadmin/doc/html/index.html"@), false),
                (Some("/mysql/doc/html/index.html"@), false),
                (Some("ChangeLog"@), false),
                (Some("/phpmyadmin/ChangeLog"@), false),
                (Some("/phpMyAdmin/ChangeLog"@), false),
                (Some("/phpMyAdmin/doc/html/index.html"@), false),
            ],
            Technology::Typo3 => seq![
                (Some("typo3/sysext/install/composer.json"@), false),
                (Some("typo3/sysext/linkvalidator/composer.json"@), false),
            ],
            Technology::WordPress => seq![
                (None, false),
                (Some("wp-admin/install.php"@), false),
                (Some("wp-login.php"@), false),
            ],
            Technology::Plesk => seq![
                (Some("/login_up.php"@), false),
            ],
            Technology::WPPYoastSEO => seq![
                (None, false),
                (Some("/wp-content/plugins/wordpress-seo/readme.txt"@), false),
                (Some("wp-content/plugins/wordpress-seo/readme.txt"@), false),
            ],
            Technology::WPPContactForm => seq![
                (Some("/wp-content/plugins/contact-form-7/readme.txt"@), false),
                (Some("wp-content/plugins/contact-form-7/readme.txt"@), false),
            ],
            Technology::WPPElementor => seq![
                (Some("/wp-content/plugins/elementor/readme.txt"@), false),
                (Some("wp-content/plugins/elementor/readme.txt"@), false),
            ],
            Technology::WPPElementsReadyLite => seq![
                (Some("/wp-content/plugins/element-ready-lite/readme.txt"@), false),
                (Some("wp-content/plugins/element-ready-lite/readme.txt"@), false),
            ],
            Technology::WPPGTranslate => seq![
                (Some("/wp-content/plugins/gtranslate/readme.txt"@), false),
                (Some("wp-content/plugins/gtranslate/readme.txt"@), false),
            ],
            Technology::WPPClassicEditor => seq![
                (Some("/wp-content/plugins/classic-editor/readme.txt"@), false),
                (Some("wp-content/plugins/classic-editor/readme.txt"@), false),
            ],
            Technology::WPPAkismet => seq![
                (Some("/wp-content/plugins/akismet/readme.txt"@), false),
                (Some("wp-content/plugins/akismet/readme.txt"@), false),
            ],
            Technology::WPPWpformsLite => seq![
                (Some("/wp-content/plugins/wpforms-lite/readme.txt"@), false),
                (Some("wp-content/plugins/wpforms-lite/readme.txt"@), false),
            ],
            Technology::WPPAllInOneWpMigration => seq![
                (Some("/wp-content/plugins/all-in-one-wp-migration/readme.txt"@), false),
                (Some("wp-content/plugins/all-in-one-wp-migration/readme.txt"@), false),
            ],
            Technology::WPPReallySimpleSSL => seq![
                (Some("/wp-content/plugins/really-simple-ssl/readme.txt"@), false),
                (Some("wp-content/plugins/really-simple-ssl/readme.txt"@), false),
            ],
            Technology::WPPJetpack => seq![
                (Some("/wp-content/plugins/jetpack/readme.txt"@), false),
                (Some("wp-content/plugins/jetpack/readme.txt"@), false),
            ],
            Technology::WPPLiteSpeedCache => seq![
                (Some("/wp-content/plugins/litespeed-cache/readme.txt"@), false),
                (Some("wp-content/plugins/litespeed-cache/readme.txt"@), false),
            ],
            Technology::WPPAllInOneSEO => seq![
                (None, false),
                (Some("/wp-content/plugins/all-in-one-seo-pack/readme.txt"@), false),
                (Some("wp-content/plugins/all-in-one-seo-pack/readme.txt"@), false),
            ],
            Technology::WPPWordfence => seq![
                (Some("/wp-content/plugins/wordfence/readme.txt"@), false),
                (Some("wp-content/plugins/wordfence/readme.txt"@), false),
            ],
            Technology::WPPWpMailSmtp => seq![
                (Some("/wp-content/plugins/wp-mail-smtp/readme.txt"@), false),
                (Some("wp-content/plugins/wp-mail-smtp/readme.txt"@), false),
            ],
            Technology::WPPMc4wp => seq![
                (Some("/wp-content/plugins/mailchimp-for-wp/readme.txt"@), false),
                (Some("wp-content/plugins/mailchimp-for-wp/readme.txt"@), false),
            ],
            Technology::WPPSpectra => seq![
                (Some("/wp-content/plugins/ultimate-addons-for-gutenberg/readme.txt"@), false),
                (Some("wp-content/plugins/ultimate-addons-for-gutenberg/readme.txt"@), false),
            ],
            Technology::WPTDivi => seq![
                (Some("/wp-content/themes/Divi/style.css"@), false),
                (Some("wp-content/themes/Divi/style.css"@), false),
            ],
            Technology::Melis => seq![
                (Some("/melis/login"@), false),
            ],
            Technology::SquirrelMail => seq![
                (Some("src/login.php"@), false),
                (Some("/squirrelmail/src/login.php"@), false),
            ],
            Technology::PhoneSystem3CX => seq![
                (Some("/webclient/"@), true),
            ],
            Technology::Prestashop => seq![
                (Some("/docs/CHANGELOG.txt"@), false),
            ],
            Technology::Symfony => seq![
                (None, false),
                (Some("/app_dev.php"@), false),
            ],
            Technology::WPPLayerSlider => seq![
                (Some("/wp-content/plugins/LayerSlider/static/layerslider/js/layerslider.kreaturamedia.jquery.js"@), false),
                (Some("wp-content/plugins/LayerSlider/static/layerslider/js/layerslider.kreaturamedia.jquery.js"@), false),
                (Some("/wp-content/plugins/LayerSlider/static/js/layerslider.kreaturamedia.jquery.js"@), false),
                (Some("wp-content/plugins/LayerSlider/static/js/layerslider.kreaturamedia.jquery.js"@), false),
            ],
            Technology::WPPWpMembers => seq![
                (Some("/wp-content/plugins/wp-members/readme.txt"@), false),
                (Some("wp-content/plugins/wp-members/readme.txt"@), false),
            ],
            Technology::WPPForminator => seq![
                (Some("/wp-content/plugins/forminator/readme.txt"@), false),
                (Some("wp-content/plugins/forminator/readme.txt"@), false),
            ],
            Technology::Horde => seq![
                (Some("/horde/services/help/index.php?module=horde&show=menu"@), false),
                (Some("horde/services/help/index.php?module=horde&show=menu"@), false),
            ],
            Technology::WPPWpSuperCache => seq![
                (Some("/wp-content/plugins/wp-super-cache/readme.txt"@), false),
                (Some("wp-content/plugins/wp-super-cache/readme.txt"@), false),
            ],
            Technology::WPPEmailSubscribers => seq![
                (Some("/wp-content/plugins/email-subscribers/readme.txt"@), false),
                (Some("wp-content/plugins/email-subscribers/readme.txt"@), false),
            ],
            Technology::WPPBetterSearchReplace => seq![
                (Some("/wp-content/plugins/better-search-replace/readme.txt"@), false),
                (Some("wp-content/plugins/better-search-replace/readme.txt"@), false),
            ],
            Technology::WPPAdvancedCustomFields => seq![
                (Some("/wp-content/plugins/advanced-custom-fields/readme.txt"@), false),
                (Some("wp-content/plugins/advanced-custom-fields/readme.txt"@), false),
            ],
            Technology::WPPHealthCheck => seq![
                (Some("/wp-content/plugins/health-check/readme.txt"@), false),
                (Some("wp-content/plugins/health-check/readme.txt"@), false),
            ],
            _ => seq![(None, true)],
        }
    }

    /// The requests that reveal the technology: none when the technology
    /// does not support HTTP scans.
    pub open spec fn spec_request_plan(self) -> Seq<(Option<Seq<char>>, bool)> {
        if self.spec_scans().contains(ScanType::Http) {
            self.spec_http_plan()
        } else {
            Seq::empty()
        }
    }

    /// The HTTP requests to send to recognise the technology at `main_url`.
    pub open spec fn spec_url_requests(self, main_url: Seq<char>) -> Seq<(Seq<char>, bool)> {
        self.spec_request_plan().map_values(|e: (Option<Seq<char>>, bool)| resolve_plan_entry(main_url, e))
    }

    fn http_plan(&self) -> (r: Vec<(Option<&'static str>, bool)>)
        ensures
            r@.map_values(|e: (Option<&'static str>, bool)| plan_entry_view(e)) == self.spec_http_plan(),
    {
        match self {
            Technology::PHP => vec![
                (None, false),
                (Some("/phpinfo.php"), false),
                (Some("/info.php"), false),
                (Some("phpinfo.php"), false),
                (Some("info.php"), false),
                (Some("/pageNotFoundNotFound"), false),
                (Some("/phpmyadmin/"), false),
                (Some("_profiler/phpinfo"), false),
            ],
            Technology::Httpd | Technology::Nginx | Technology::OpenSSL => vec![
                (None, false),
                (Some("/pageNotFoundNotFound"), false),
                (Some("/phpmyadmin/"), false),
                (Some("/..;/..;/"), false),
            ],
            Technology::Tomcat => vec![
                (Some("/pageNotFoundNotFound"), false),
                (Some("/..;/..;/"), false),
                (Some("/..;/status.html"), false),
            ],
            Technology::PhpMyAdmin => vec![
                (Some("doc/html/index.html"), false),
                (Some("/phpmyadmin/doc/html/index.html"), false),
                (Some("/mysql/doc/html/index.html"), false),
                (Some("ChangeLog"), false),
                (Some("/phpmyadmin/ChangeLog"), false),
                (Some("/phpMyAdmin/ChangeLog"), false),
                (Some("/phpMyAdmin/doc/html/index.html"), false),
            ],
            Technology::Typo3 => vec![
                (Some("typo3/sysext/install/composer.json"), false),
                (Some("typo3/sysext/linkvalidator/composer.json"), false),
            ],
            Technology::WordPress => vec![
                (None, false),
                (Some("wp-admin/install.php"), false),
                (Some("wp-login.php"), false),
            ],
            Technology::Plesk => vec![
                (Some("/login_up.php"), false),
            ],
            Technology::WPPYoastSEO => vec![
                (None, false),
                (Some("/wp-content/plugins/wordpress-seo/readme.txt"), false),
                (Some("wp-content/plugins/wordpress-seo/readme.txt"), false),
            ],
            Technology::WPPContactForm => vec![
                (Some("/wp-content/plugins/contact-form-7/readme.txt"), false),
                (Some("wp-content/plugins/contact-form-7/readme.txt"), false),
            ],
            Technology::WPPElementor => vec![
                (Some("/wp-content/plugins/elementor/readme.txt"), false),
                (Some("wp-content/plugins/elementor/readme.txt"), false),
            ],
            Technology::WPPElementsReadyLite => vec![
                (Some("/wp-content/plugins/element-ready-lite/readme.txt"), false),
                (Some("wp-content/plugins/element-ready-lite/readme.txt"), false),
            ],
            Technology::WPPGTranslate => vec![
                (Some("/wp-content/plugins/gtranslate/readme.txt"), false),
                (Some("wp-content/plugins/gtranslate/readme.txt"), false),
            ],
            Technology::WPPClassicEditor => vec![
                (Some("/wp-content/plugins/classic-editor/readme.txt"), false),
                (Some("wp-content/plugins/classic-editor/readme.txt"), false),
            ],
            Technology::WPPAkismet => vec![
                (Some("/wp-content/plugins/akismet/readme.txt"), false),
                (Some("wp-content/plugins/akismet/readme.txt"), false),
            ],
            Technology::WPPWpformsLite => vec![
                (Some("/wp-content/plugins/wpforms-lite/readme.txt"), false),
                (Some("wp-content/plugins/wpforms-lite/readme.txt"), false),
            ],
            Technology::WPPAllInOneWpMigration => vec![
                (Some("/wp-content/plugins/all-in-one-wp-migration/readme.txt"), false),
                (Some("wp-content/plugins/all-in-one-wp-migration/readme.txt"), false),
            ],
            Technology::WPPReallySimpleSSL => vec![
                (Some("/wp-content/plugins/really-simple-ssl/readme.txt"), false),
                (Some("wp-content/plugins/really-simple-ssl/readme.txt"), false),
            ],
            Technology::WPPJetpack => vec![
                (Some("/wp-content/plugins/jetpack/readme.txt"), false),
                (Some("wp-content/plugins/jetpack/readme.txt"), false),
            ],
            Technology::WPPLiteSpeedCache => vec![
                (Some("/wp-content/plugins/litespeed-cache/readme.txt"), false),
                (Some("wp-content/plugins/litespeed-cache/readme.txt"), false),
            ],
            Technology::WPPAllInOneSEO => vec![
                (None, false),
                (Some("/wp-content/plugins/all-in-one-seo-pack/readme.txt"), false),
                (Some("wp-content/plugins/all-in-one-seo-pack/readme.txt"), false),
            ],
            Technology::WPPWordfence => vec![
                (Some("/wp-content/plugins/wordfence/readme.txt"), false),
                (Some("wp-content/plugins/wordfence/readme.txt"), false),
            ],
            Technology::WPPWpMailSmtp => vec![
                (Some("/wp-content/plugins/wp-mail-smtp/readme.txt"), false),
                (Some("wp-content/plugins/wp-mail-smtp/readme.txt"), false),
            ],
            Technology::WPPMc4wp => vec![
                (Some("/wp-content/plugins/mailchimp-for-wp/readme.txt"), false),
                (Some("wp-content/plugins/mailchimp-for-wp/readme.txt"), false),
            ],
            Technology::WPPSpectra => vec![
                (Some("/wp-content/plugins/ultimate-addons-for-gutenberg/readme.txt"), false),
                (Some("wp-content/plugins/ultimate-addons-for-gutenberg/readme.txt"), false),
            ],
            Technology::WPTDivi => vec![
                (Some("/wp-content/themes/Divi/style.css"), false),
                (Some("wp-content/themes/Divi/style.css"), false),
            ],
            Technology::Melis => vec![
                (Some("/melis/login"), false),
            ],
            Technology::SquirrelMail => vec![
                (Some("src/login.php"), false),
                (Some("/squirrelmail/src/login.php"), false),
            ],
            Technology::PhoneSystem3CX => vec![
                (Some("/webclient/"), true),
            ],
            Technology::Prestashop => vec![
                (Some("/docs/CHANGELOG.txt"), false),
            ],
            Technology::Symfony => vec![
                (None, false),
                (Some("/app_dev.php"), false),
            ],
            Technology::WPPLayerSlider => vec![
                (Some("/wp-content/plugins/LayerSlider/static/layerslider/js/layerslider.kreaturamedia.jquery.js"), false),
                (Some("wp-content/plugins/LayerSlider/static/layerslider/js/layerslider.kreaturamedia.jquery.js"), false),
                (Some("/wp-content/plugins/LayerSlider/static/js/layerslider.kreaturamedia.jquery.js"), false),
                (Some("wp-content/plugins/LayerSlider/static/js/layerslider.kreaturamedia.jquery.js"), false),
            ],
            Technology::WPPWpMembers => vec![
                (Some("/wp-content/plugins/wp-members/readme.txt"), false),
                (Some("wp-content/plugins/wp-members/readme.txt"), false),
            ],
            Technology::WPPForminator => vec![
                (Some("/wp-content/plugins/forminator/readme.txt"), false),
                (Some("wp-content/plugins/forminator/readme.txt"), false),
            ],
            Technology::Horde => vec![
                (Some("/horde/services/help/index.php?module=horde&show=menu"), false),
                (Some("horde/services/help/index.php?module=horde&show=menu"), false),
            ],
            Technology::WPPWpSuperCache => vec![
                (Some("/wp-content/plugins/wp-super-cache/readme.txt"), false),
                (Some("wp-content/plugins/wp-super-cache/readme.txt"), false),
            ],
            Technology::WPPEmailSubscribers => vec![
                (Some("/wp-content/plugins/email-subscribers/readme.txt"), false),
                (Some("wp-content/plugins/email-subscribers/readme.txt"), false),
            ],
            Technology::WPPBetterSearchReplace => vec![
                (Some("/wp-content/plugins/better-search-replace/readme.txt"), false),
                (Some("wp-content/plugins/better-search-replace/readme.txt"), false),
            ],
            Technology::WPPAdvancedCustomFields => vec![
                (Some("/wp-content/plugins/advanced-custom-fields/readme.txt"), false),
                (Some("wp-content/plugins/advanced-custom-fields/readme.txt"), false),
            ],
            Technology::WPPHealthCheck => vec![
                (Some("/wp-content/plugins/health-check/readme.txt"), false),
                (Some("wp-content/plugins/health-check/readme.txt"), false),
            ],
            _ => vec![(None, true)],
        }
    }

    /// Get the HTTP requests to send for a given technology.
    ///
    /// For non-HTTP scans, an empty list is returned. For HTTP scans,
    /// the requests matching the technology are returned.
    pub fn get_url_requests(&self, main_url: &str) -> (r: Vec<UrlRequest>)
        ensures
            r@.map_values(|u: UrlRequest| u@) == self.spec_url_requests(main_url@),
    {
        if !self.supports_scan(ScanType::Http) {
            let r: Vec<UrlRequest> = Vec::new();
            assert(r@.map_values(|u: UrlRequest| u@) =~= self.spec_url_requests(main_url@));
            return r;
        }
        let plan = self.http_plan();
        let ghost spec_plan = self.spec_http_plan();
        assert(plan@.len() == spec_plan.len()) by {
            assert(plan@.map_values(|e: (Option<&'static str>, bool)| plan_entry_view(e)).len() == plan@.len());
        }
        let mut requests: Vec<UrlRequest> = Vec::new();
        let mut i: usize = 0;
        while i < plan.len()
            invariant
                i <= plan@.len(),
                plan@.len() == spec_plan.len(),
                spec_plan == self.spec_http_plan(),
                plan@.map_values(|e: (Option<&'static str>, bool)| plan_entry_view(e)) == spec_plan,
                requests@.len() == i,
                forall|j: int| 0 <= j < i ==> #[trigger] requests@[j]@ == resolve_plan_entry(main_url@, spec_plan[j]),
            decreases plan.len() - i,
        {
            let (path, fetch_js) = plan[i];
            assert(plan_entry_view(plan@[i as int]) == spec_plan[i as int]);
            let request = match path {
                Some(p) => UrlRequest::from_path(main_url, p, fetch_js),
                None => UrlRequest::new(main_url, fetch_js),
            };
            requests.push(request);
            i += 1;
        }
        assert(requests@.map_values(|u: UrlRequest| u@) =~= self.spec_url_requests(main_url@));
        requests
    }

    /// The name under which the technology is displayed.
    pub open spec fn spec_display_name(self) -> Seq<char> {
        match self {
            Technology::Dovecot => "Dovecot"@,
            Technology::Exim => "Exim"@,
            Technology::MariaDB => "MariaDB"@,
            Technology::MySQL => "MySQL"@,
            Technology::OpenSSH => "OpenSSH"@,
            Technology::ProFTPD => "ProFTPD"@,
            Technology::PureFTPd => "PureFTPd"@,
            Technology::OS => "OS"@,
            Technology::Ubuntu => "Ubuntu"@,
            Technology::Debian => "Debian"@,
            Technology::CentOS => "CentOS"@,
            Technology::Fedora => "Fedora"@,
            Technology::AlmaLinux => "AlmaLinux"@,
            Technology::OracleLinux => "OracleLinux"@,
            Technology::FreeBSD => "FreeBSD"@,
            Technology::OpenBSD => "OpenBSD"@,
            Technology::NetBSD => "NetBSD"@,
            Technology::Unix => "Unix"@,
            Technology::PHP => "PHP"@,
            Technology::PhpMyAdmin => "phpMyAdmin"@,
            Technology::Typo3 => "TYPO3"@,
            Technology::WordPress => "WordPress"@,
            Technology::Drupal => "Drupal"@,
            Technology::Httpd => "Apachehttpd"@,
            Technology::Tomcat => "Tomcat"@,
            Technology::Nginx => "Nginx"@,
            Technology::OpenSSL => "OpenSSL"@,
            Technology::JQuery => "jQuery"@,
            Technology::ReactJS => "React"@,
            Technology::Handlebars => "Handlebars"@,
            Technology::Lodash => "Lodash"@,
            Technology::AngularJS => "AngularJS"@,
            Technology::Gsap => "GSAP"@,
            Technology::Bootstrap => "Bootstrap"@,
            Technology::Angular => "Angular"@,
            Technology::Plesk => "Plesk"@,
            Technology::CKEditor => "CKEditor"@,
            Technology::Highcharts => "Highcharts"@,
            Technology::WPPYoastSEO => "YoastSEO"@,
            Technology::WPPRevSlider => "SliderRevolution"@,
            Technology::WPPJSComposer => "JSComposer"@,
            Technology::WPPContactForm => "ContactForm7"@,
            Technology::Melis => "Melis"@,
            Technology::WPPElementor => "Elementor"@,
            Technology::WPPElementsReadyLite => "ElementsReadyLite"@,
            Technology::WPPGTranslate => "GTranslate"@,
            Technology::WPPWooCommerce => "WooCommerce"@,
            Technology::WPTDivi => "Divi"@,
            Technology::WPPClassicEditor => "ClassicEditor"@,
            Technology::WPPAkismet => "Akismet"@,
            Technology::WPPWpformsLite => "WpFormsLite"@,
            Technology::WPPAllInOneWpMigration => "AllInOneWpMigration"@,
            Technology::WPPReallySimpleSSL => "ReallySimpleSSL"@,
            Technology::WPPJetpack => "Jetpack"@,
            Technology::WPPLiteSpeedCache => "LiteSpeedCache"@,
            Technology::WPPAllInOneSEO => "AllInOneSEO"@,
            Technology::WPPWordfence => "Wordfence"@,
            Technology::WPPWpMailSmtp => "WpMailSmtp"@,
            Technology::WPPMc4wp => "Mc4wp"@,
            Technology::WPPSpectra => "Spectra"@,
            Technology::SquirrelMail => "SquirrelMail"@,
            Technology::PhoneSystem3CX => "PhoneSystem3CX"@,
            Technology::Prestashop => "Prestashop"@,
            Technology::Jira => "Jira"@,
            Technology::Twisted => "Twisted"@,
            Technology::TwistedWeb => "TwistedWeb"@,
            Technology::Symfony => "Symfony"@,
            Technology::TinyMCE => "TinyMCE"@,
            Technology::JQueryUI => "jQueryUI"@,
            Technology::WPPLayerSlider => "LayerSlider"@,
            Technology::WPPWpMembers => "WpMembers"@,
            Technology::WPPForminator => "Forminator"@,
            Technology::Horde => "Horde"@,
            Technology::Knockout => "Knockout"@,
            Technology::WPPWpSuperCache => "WpSuperCache"@,
            Technology::WPPEmailSubscribers => "EmailSubscribers"@,
            Technology::WPPBetterSearchReplace => "BetterSearchReplace"@,
            Technology::WPPAdvancedCustomFields => "AdvancedCustomFields"@,
            Technology::WPPHealthCheck => "HealthCheck"@,
            Technology::JQueryMobile => "jQueryMobile"@,
        }
    }

    /// The name under which the technology is displayed.
    pub fn to_string(&self) -> (r: String)
        ensures
            r@ == self.spec_display_name(),
    {
        let s: &str = match self {
            Technology::Dovecot => "Dovecot",
            Technology::Exim => "Exim",
            Technology::MariaDB => "MariaDB",
            Technology::MySQL => "MySQL",
            Technology::OpenSSH => "OpenSSH",
            Technology::ProFTPD => "ProFTPD",
            Technology::PureFTPd => "PureFTPd",
            Technology::OS => "OS",
            Technology::Ubuntu => "Ubuntu",
            Technology::Debian => "Debian",
            Technology::CentOS => "CentOS",
            Technology::Fedora => "Fedora",
            Technology::AlmaLinux => "AlmaLinux",
            Technology::OracleLinux => "OracleLinux",
            Technology::FreeBSD => "FreeBSD",
            Technology::OpenBSD => "OpenBSD",
            Technology::NetBSD => "NetBSD",
            Technology::Unix => "Unix",
            Technology::PHP => "PHP",
            Technology::PhpMyAdmin => "phpMyAdmin",
            Technology::Typo3 => "TYPO3",
            Technology::WordPress => "WordPress",
            Technology::Drupal => "Drupal",
            Technology::Httpd => "Apachehttpd",
            Technology::Tomcat => "Tomcat",
            Technology::Nginx => "Nginx",
            Technology::OpenSSL => "OpenSSL",
            Technology::JQuery => "jQuery",
            Technology::ReactJS => "React",
            Technology::Handlebars => "Handlebars",
            Technology::Lodash => "Lodash",
            Technology::AngularJS => "AngularJS",
            Technology::Gsap => "GSAP",
            Technology::Bootstrap => "Bootstrap",
            Technology::Angular => "Angular",
            Technology::Plesk => "Plesk",
            Technology::CKEditor => "CKEditor",
            Technology::Highcharts => "Highcharts",
            Technology::WPPYoastSEO => "YoastSEO",
            Technology::WPPRevSlider => "SliderRevolution",
            Technology::WPPJSComposer => "JSComposer",
            Technology::WPPContactForm => "ContactForm7",
            Technology::Melis => "Melis",
            Technology::WPPElementor => "Elementor",
            Technology::WPPElementsReadyLite => "ElementsReadyLite",
            Technology::WPPGTranslate => "GTranslate",
            Technology::WPPWooCommerce => "WooCommerce",
            Technology::WPTDivi => "Divi",
            Technology::WPPClassicEditor => "ClassicEditor",
            Technology::WPPAkismet => "Akismet",
            Technology::WPPWpformsLite => "WpFormsLite",
            Technology::WPPAllInOneWpMigration => "AllInOneWpMigration",
            Technology::WPPReallySimpleSSL => "ReallySimpleSSL",
            Technology::WPPJetpack => "Jetpack",
            Technology::WPPLiteSpeedCache => "LiteSpeedCache",
            Technology::WPPAllInOneSEO => "AllInOneSEO",
            Technology::WPPWordfence => "Wordfence",
            Technology::WPPWpMailSmtp => "WpMailSmtp",
            Technology::WPPMc4wp => "Mc4wp",
            Technology::WPPSpectra => "Spectra",
            Technology::SquirrelMail => "SquirrelMail",
            Technology::PhoneSystem3CX => "PhoneSystem3CX",
            Technology::Prestashop => "Prestashop",
            Technology::Jira => "Jira",
            Technology::Twisted => "Twisted",
            Technology::TwistedWeb => "TwistedWeb",
            Technology::Symfony => "Symfony",
            Technology::TinyMCE => "TinyMCE",
            Technology::JQueryUI => "jQueryUI",
            Technology::WPPLayerSlider => "LayerSlider",
            Technology::WPPWpMembers => "WpMembers",
            Technology::WPPForminator => "Forminator",
            Technology::Horde => "Horde",
            Technology::Knockout => "Knockout",
            Technology::WPPWpSuperCache => "WpSuperCache",
            Technology::WPPEmailSubscribers => "EmailSubscribers",
            Technology::WPPBetterSearchReplace => "BetterSearchReplace",
            Technology::WPPAdvancedCustomFields => "AdvancedCustomFields",
            Technology::WPPHealthCheck => "HealthCheck",
            Technology::JQueryMobile => "jQueryMobile",
        };
        s.to_owned()
    }

    /// The technologies that can be given on the command line, in the order
    /// they are listed.
    pub open spec fn spec_value_variants() -> Seq<Technology> {
        seq![
            Technology::Dovecot,
            Technology::Exim,
            Technology::MariaDB,
            Technology::MySQL,
            Technology::OpenSSH,
            Technology::ProFTPD,
            Technology::PureFTPd,
            Technology::OS,
            Technology::PHP,
            Technology::PhpMyAdmin,
            Technology::WordPress,
            Technology::Drupal,
            Technology::Typo3,
            Technology::Httpd,
            Technology::Nginx,
            Technology::OpenSSL,
            Technology::JQuery,
            Technology::ReactJS,
            Technology::Handlebars,
            Technology::Lodash,
            Technology::AngularJS,
            Technology::Gsap,
            Technology::Tomcat,
            Technology::Bootstrap,
            Technology::Angular,
            Technology::Plesk,
            Technology::CKEditor,
            Technology::Highcharts,
            Technology::WPPYoastSEO,
            Technology::WPPRevSlider,
            Technology::WPPJSComposer,
            Technology::WPPContactForm,
            Technology::Melis,
            Technology::WPPElementor,
            Technology::WPPElementsReadyLite,
            Technology::WPPGTranslate,
            Technology::WPPWooCommerce,
            Technology::WPTDivi,
            Technology::WPPClassicEditor,
            Technology::WPPAkismet,
            Technology::WPPWpformsLite,
            Technology::WPPAllInOneWpMigration,
            Technology::WPPReallySimpleSSL,
            Technology::WPPJetpack,
            Technology::WPPLiteSpeedCache,
            Technology::WPPAllInOneSEO,
            Technology::WPPWordfence,
            Technology::WPPWpMailSmtp,
            Technology::WPPMc4wp,
            Technology::WPPSpectra,
            Technology::SquirrelMail,
            Technology::PhoneSystem3CX,
            Technology::Prestashop,
            Technology::Jira,
            Technology::Twisted,
            Technology::TwistedWeb,
            Technology::Symfony,
            Technology::TinyMCE,
            Technology::JQueryUI,
            Technology::WPPLayerSlider,
            Technology::WPPWpMembers,
            Technology::WPPForminator,
            Technology::Horde,
            Technology::Knockout,
            Technology::WPPWpSuperCache,
            Technology::WPPEmailSubscribers,
            Technology::WPPBetterSearchReplace,
            Technology::WPPAdvancedCustomFields,
            Technology::WPPHealthCheck,
            Technology::JQueryMobile,
        ]
    }

    /// Lists the technologies available on the command line.
    pub fn value_variants() -> (r: Vec<Technology>)
        ensures
            r@ == Self::spec_value_variants(),
    {
        vec![
            Technology::Dovecot,
            Technology::Exim,
            Technology::MariaDB,
            Technology::MySQL,
            Technology::OpenSSH,
            Technology::ProFTPD,
            Technology::PureFTPd,
            Technology::OS,
            Technology::PHP,
            Technology::PhpMyAdmin,
            Technology::WordPress,
            Technology::Drupal,
            Technology::Typo3,
            Technology::Httpd,
            Technology::Nginx,
            Technology::OpenSSL,
            Technology::JQuery,
            Technology::ReactJS,
            Technology::Handlebars,
            Technology::Lodash,
            Technology::AngularJS,
            Technology::Gsap,
            Technology::Tomcat,
            Technology::Bootstrap,
            Technology::Angular,
            Technology::Plesk,
            Technology::CKEditor,
            Technology::Highcharts,
            Technology::WPPYoastSEO,
            Technology::WPPRevSlider,
            Technology::WPPJSComposer,
            Technology::WPPContactForm,
            Technology::Melis,
            Technology::WPPElementor,
            Technology::WPPElementsReadyLite,
            Technology::WPPGTranslate,
            Technology::WPPWooCommerce,
            Technology::WPTDivi,
            Technology::WPPClassicEditor,
            Technology::WPPAkismet,
            Technology::WPPWpformsLite,
            Technology::WPPAllInOneWpMigration,
            Technology::WPPReallySimpleSSL,
            Technology::WPPJetpack,
            Technology::WPPLiteSpeedCache,
            Technology::WPPAllInOneSEO,
            Technology::WPPWordfence,
            Technology::WPPWpMailSmtp,
            Technology::WPPMc4wp,
            Technology::WPPSpectra,
            Technology::SquirrelMail,
            Technology::PhoneSystem3CX,
            Technology::Prestashop,
            Technology::Jira,
            Technology::Twisted,
            Technology::TwistedWeb,
            Technology::Symfony,
            Technology::TinyMCE,
            Technology::JQueryUI,
            Technology::WPPLayerSlider,
            Technology::WPPWpMembers,
            Technology::WPPForminator,
            Technology::Horde,
            Technology::Knockout,
            Technology::WPPWpSuperCache,
            Technology::WPPEmailSubscribers,
            Technology::WPPBetterSearchReplace,
            Technology::WPPAdvancedCustomFields,
            Technology::WPPHealthCheck,
            Technology::JQueryMobile,
        ]
    }

    /// The command-line name of the technology. The specific operating
    /// systems have none: they cannot be given as input, only found.
    pub open spec fn spec_possible_value(self) -> Option<Seq<char>> {
        match self {
            Technology::Dovecot => Some("dovecot"@),
            Technology::Exim => Some("exim"@),
            Technology::MariaDB => Some("mariadb"@),
            Technology::MySQL => Some("mysql"@),
            Technology::OpenSSH => Some("openssh"@),
            Technology::ProFTPD => Some("proftpd"@),
            Technology::PureFTPd => Some("pureftpd"@),
            Technology::OS => Some("os"@),
            Technology::PHP => Some("php"@),
            Technology::PhpMyAdmin => Some("phpmyadmin"@),
            Technology::WordPress => Some("wordpress"@),
            Technology::Drupal => Some("drupal"@),
            Technology::Typo3 => Some("typo3"@),
            Technology::Httpd => Some("httpd"@),
            Technology::Tomcat => Some("tomcat"@),
            Technology::Nginx => Some("nginx"@),
            Technology::OpenSSL => Some("openssl"@),
            Technology::JQuery => Some("jquery"@),
            Technology::ReactJS => Some("reactjs"@),
            Technology::Handlebars => Some("handlebars"@),
            Technology::Lodash => Some("lodash"@),
            Technology::AngularJS => Some("angularjs"@),
            Technology::Gsap => Some("gsap"@),
            Technology::Bootstrap => Some("bootstrap"@),
            Technology::Angular => Some("angular"@),
            Technology::Plesk => Some("plesk"@),
            Technology::CKEditor => Some("ckeditor"@),
            Technology::Highcharts => Some("highcharts"@),
            Technology::WPPYoastSEO => Some("yoastseo"@),
            Technology::WPPRevSlider => Some("revslider"@),
            Technology::WPPJSComposer => Some("jscomposer"@),
            Technology::WPPContactForm => Some("contactform"@),
            Technology::Melis => Some("melis"@),
            Technology::WPPElementor => Some("elementor"@),
            Technology::WPPElementsReadyLite => Some("elementreadylite"@),
            Technology::WPPGTranslate => Some("gtranslate"@),
            Technology::WPPWooCommerce => Some("woocommerce"@),
            Technology::WPTDivi => Some("divi"@),
            Technology::WPPClassicEditor => Some("classiceditor"@),
            Technology::WPPAkismet => Some("akismet"@),
            Technology::WPPWpformsLite => Some("wpformslite"@),
            Technology::WPPAllInOneWpMigration => Some("allinonewpmigration"@),
            Technology::WPPReallySimpleSSL => Some("reallysimplessl"@),
            Technology::WPPJetpack => Some("jetpack"@),
            Technology::WPPLiteSpeedCache => Some("litespeedcache"@),
            Technology::WPPAllInOneSEO => Some("allinoneseo"@),
            Technology::WPPWordfence => Some("wordfence"@),
            Technology::WPPWpMailSmtp => Some("wpmailsmtp"@),
            Technology::WPPMc4wp => Some("mc4wp"@),
            Technology::WPPSpectra => Some("spectra"@),
            Technology::SquirrelMail => Some("squirrelmail"@),
            Technology::PhoneSystem3CX => Some("phonesystem3cx"@),
            Technology::Prestashop => Some("prestashop"@),
            Technology::Jira => Some("jira"@),
            Technology::Twisted => Some("twisted"@),
            Technology::TwistedWeb => Some("twistedweb"@),
            Technology::Symfony => Some("symfony"@),
            Technology::TinyMCE => Some("tinymce"@),
            Technology::JQueryUI => Some("jqueryui"@),
            Technology::WPPLayerSlider => Some("layerslider"@),
            Technology::WPPWpMembers => Some("wpmembers"@),
            Technology::WPPForminator => Some("forminator"@),
            Technology::Horde => Some("horde"@),
            Technology::Knockout => Some("knockout"@),
            Technology::WPPWpSuperCache => Some("wpsupercache"@),
            Technology::WPPEmailSubscribers => Some("emailsubscribers"@),
            Technology::WPPBetterSearchReplace => Some("bettersearchreplace"@),
            Technology::WPPAdvancedCustomFields => Some("advancedcustomfields"@),
            Technology::WPPHealthCheck => Some("healthcheck"@),
            Technology::JQueryMobile => Some("jquerymobile"@),
            _ => None,
        }
    }

    /// Maps each technology to its command-line name, if it has one.
    pub fn to_possible_value(&self) -> (r: Option<String>)
        ensures
            r matches Some(s) ==> self.spec_possible_value() == Some(s@),
            r is None ==> self.spec_possible_value() is None,
    {
        let name: Option<&str> = match self {
            Technology::Dovecot => Some("dovecot"),
            Technology::Exim => Some("exim"),
            Technology::MariaDB => Some("mariadb"),
            Technology::MySQL => Some("mysql"),
            Technology::OpenSSH => Some("openssh"),
            Technology::ProFTPD => Some("proftpd"),
            Technology::PureFTPd => Some("pureftpd"),
            Technology::OS => Some("os"),
            Technology::PHP => Some("php"),
            Technology::PhpMyAdmin => Some("phpmyadmin"),
            Technology::WordPress => Some("wordpress"),
            Technology::Drupal => Some("drupal"),
            Technology::Typo3 => Some("typo3"),
            Technology::Httpd => Some("httpd"),
            Technology::Tomcat => Some("tomcat"),
            Technology::Nginx => Some("nginx"),
            Technology::OpenSSL => Some("openssl"),
            Technology::JQuery => Some("jquery"),
            Technology::ReactJS => Some("reactjs"),
            Technology::Handlebars => Some("handlebars"),
            Technology::Lodash => Some("lodash"),
            Technology::AngularJS => Some("angularjs"),
            Technology::Gsap => Some("gsap"),
            Technology::Bootstrap => Some("bootstrap"),
            Technology::Angular => Some("angular"),
            Technology::Plesk => Some("plesk"),
            Technology::CKEditor => Some("ckeditor"),
            Technology::Highcharts => Some("highcharts"),
            Technology::WPPYoastSEO => Some("yoastseo"),
            Technology::WPPRevSlider => Some("revslider"),
            Technology::WPPJSComposer => Some("jscomposer"),
            Technology::WPPContactForm => Some("contactform"),
            Technology::Melis => Some("melis"),
            Technology::WPPElementor => Some("elementor"),
            Technology::WPPElementsReadyLite => Some("elementreadylite"),
            Technology::WPPGTranslate => Some("gtranslate"),
            Technology::WPPWooCommerce => Some("woocommerce"),
            Technology::WPTDivi => Some("divi"),
            Technology::WPPClassicEditor => Some("classiceditor"),
            Technology::WPPAkismet => Some("akismet"),
            Technology::WPPWpformsLite => Some("wpformslite"),
            Technology::WPPAllInOneWpMigration => Some("allinonewpmigration"),
            Technology::WPPReallySimpleSSL => Some("reallysimplessl"),
            Technology::WPPJetpack => Some("jetpack"),
            Technology::WPPLiteSpeedCache => Some("litespeedcache"),
            Technology::WPPAllInOneSEO => Some("allinoneseo"),
            Technology::WPPWordfence => Some("wordfence"),
            Technology::WPPWpMailSmtp => Some("wpmailsmtp"),
            Technology::WPPMc4wp => Some("mc4wp"),
            Technology::WPPSpectra => Some("spectra"),
            Technology::SquirrelMail => Some("squirrelmail"),
            Technology::PhoneSystem3CX => Some("phonesystem3cx"),
            Technology::Prestashop => Some("prestashop"),
            Technology::Jira => Some("jira"),
            Technology::Twisted => Some("twisted"),
            Technology::TwistedWeb => Some("twistedweb"),
            Technology::Symfony => Some("symfony"),
            Technology::TinyMCE => Some("tinymce"),
            Technology::JQueryUI => Some("jqueryui"),
            Technology::WPPLayerSlider => Some("layerslider"),
            Technology::WPPWpMembers => Some("wpmembers"),
            Technology::WPPForminator => Some("forminator"),
            Technology::Horde => Some("horde"),
            Technology::Knockout => Some("knockout"),
            Technology::WPPWpSuperCache => Some("wpsupercache"),
            Technology::WPPEmailSubscribers => Some("emailsubscribers"),
            Technology::WPPBetterSearchReplace => Some("bettersearchreplace"),
            Technology::WPPAdvancedCustomFields => Some("advancedcustomfields"),
            Technology::WPPHealthCheck => Some("healthcheck"),
            Technology::JQueryMobile => Some("jquerymobile"),
            _ => None,
        };
        match name {
            Some(s) => Some(s.to_owned()),
            None => None,
        }
    }
}

/// Every technology supports at least one scan type, and lists none twice.
pub proof fn law_scans_nonempty_distinct(t: Technology)
    ensures
        t.spec_scans().len() > 0,
        forall|i: int, j: int| 0 <= i < j < t.spec_scans().len() ==> t.spec_scans()[i] != t.spec_scans()[j],
{
}

/// No HTTP request is planned for a technology that does not support HTTP
/// scans, and at least one is planned for every technology that does.
pub proof fn law_url_requests_empty_iff_no_http(t: Technology, main_url: Seq<char>)
    ensures
        t.spec_url_requests(main_url).len() == 0 <==> !t.spec_scans().contains(ScanType::Http),
{
    assert(t.spec_scans().contains(ScanType::Http) ==> t.spec_http_plan().len() > 0);
}

/// Every technology listed for the command line has a command-line name.
pub proof fn law_value_variants_have_names()
    ensures
        forall|i: int| 0 <= i < Technology::spec_value_variants().len()
            ==> (#[trigger] Technology::spec_value_variants()[i]).spec_possible_value() is Some,
{
}

/// Every technology that has a command-line name is listed for the command line.
pub proof fn law_named_technologies_are_listed(t: Technology)
    ensures
        t.spec_possible_value() is Some ==> Technology::spec_value_variants().contains(t),
{
}

/// The technologies without a command-line name are exactly the specific
/// operating systems: those whose CPE part is "o". They can only be found,
/// not asked for.
pub proof fn law_unnamed_iff_operating_system(t: Technology)
    ensures
        t.spec_possible_value() is None <==> t.spec_cpe_part_vendor_product().0 == "o"@,
{
    reveal_strlit("o");
    reveal_strlit("a");
    reveal_strlit("");
    assert("a"@ != "o"@) by {
        assert("a"@[0] != "o"@[0]);
    }
    assert(""@ != "o"@) by {
        assert(""@.len() != "o"@.len());
    }
}

/// Two technologies never share a command-line name.
pub proof fn law_names_distinct(t1: Technology, t2: Technology)
    requires
        t1.spec_possible_value() is Some,
        t1.spec_possible_value() == t2.spec_possible_value(),
    ensures
        t1 == t2,
{
    reveal_strlit("dovecot");
    reveal_strlit("exim");
    reveal_strlit("mariadb");
    reveal_strlit("mysql");
    reveal_strlit("openssh");
    reveal_strlit("proftpd");
    reveal_strlit("pureftpd");
    reveal_strlit("os");
    reveal_strlit("php");
    reveal_strlit("phpmyadmin");
    reveal_strlit("wordpress");
    reveal_strlit("drupal");
    reveal_strlit("typo3");
    reveal_strlit("httpd");
    reveal_strlit("tomcat");
    reveal_strlit("nginx");
    reveal_strlit("openssl");
    reveal_strlit("jquery");
    reveal_strlit("reactjs");
    reveal_strlit("handlebars");
    reveal_strlit("lodash");
    reveal_strlit("angularjs");
    reveal_strlit("gsap");
    reveal_strlit("bootstrap");
    reveal_strlit("angular");
    reveal_strlit("plesk");
    reveal_strlit("ckeditor");
    reveal_strlit("highcharts");
    reveal_strlit("yoastseo");
    reveal_strlit("revslider");
    reveal_strlit("jscomposer");
    reveal_strlit("contactform");
    reveal_strlit("melis");
    reveal_strlit("elementor");
    reveal_strlit("elementreadylite");
    reveal_strlit("gtranslate");
    reveal_strlit("woocommerce");
    reveal_strlit("divi");
    reveal_strlit("classiceditor");
    reveal_strlit("akismet");
    reveal_strlit("wpformslite");
    reveal_strlit("allinonewpmigration");
    reveal_strlit("reallysimplessl");
    reveal_strlit("jetpack");
    reveal_strlit("litespeedcache");
    reveal_strlit("allinoneseo");
    reveal_strlit("wordfence");
    reveal_strlit("wpmailsmtp");
    reveal_strlit("mc4wp");
    reveal_strlit("spectra");
    reveal_strlit("squirrelmail");
    reveal_strlit("phonesystem3cx");
    reveal_strlit("prestashop");
    reveal_strlit("jira");
    reveal_strlit("twisted");
    reveal_strlit("twistedweb");
    reveal_strlit("symfony");
    reveal_strlit("tinymce");
    reveal_strlit("jqueryui");
    reveal_strlit("layerslider");
    reveal_strlit("wpmembers");
    reveal_strlit("forminator");
    reveal_strlit("horde");
    reveal_strlit("knockout");
    reveal_strlit("wpsupercache");
    reveal_strlit("emailsubscribers");
    reveal_strlit("bettersearchreplace");
    reveal_strlit("advancedcustomfields");
    reveal_strlit("healthcheck");
    reveal_strlit("jquerymobile");
    assert("dovecot"@[0] != "mariadb"@[0]);
    assert("dovecot"@[0] != "openssh"@[0]);
    assert("dovecot"@[0] != "proftpd"@[0]);
    assert("dovecot"@[0] != "openssl"@[0]);
    assert("dovecot"@[0] != "reactjs"@[0]);
    assert("dovecot"@[0] != "angular"@[0]);
    assert("dovecot"@[0] != "akismet"@[0]);
    assert("dovecot"@[0] != "jetpack"@[0]);
    assert("dovecot"@[0] != "spectra"@[0]);
    assert("dovecot"@[0] != "twisted"@[0]);
    assert("dovecot"@[0] != "symfony"@[0]);
    assert("dovecot"@[0] != "tinymce"@[0]);
    assert("exim"@[0] != "gsap"@[0]);
    assert("exim"@[0] != "divi"@[0]);
    assert("exim"@[0] != "jira"@[0]);
    assert("mariadb"@[0] != "openssh"@[0]);
    assert("mariadb"@[0] != "proftpd"@[0]);
    assert("mariadb"@[0] != "openssl"@[0]);
    assert("mariadb"@[0] != "reactjs"@[0]);
    assert("mariadb"@[0] != "angular"@[0]);
    assert("mariadb"@[0] != "akismet"@[0]);
    assert("mariadb"@[0] != "jetpack"@[0]);
    assert("mariadb"@[0] != "spectra"@[0]);
    assert("mariadb"@[0] != "twisted"@[0]);
    assert("mariadb"@[0] != "symfony"@[0]);
    assert("mariadb"@[0] != "tinymce"@[0]);
    assert("mysql"@[0] != "typo3"@[0]);
    assert("mysql"@[0] != "httpd"@[0]);
    assert("mysql"@[0] != "nginx"@[0]);
    assert("mysql"@[0] != "plesk"@[0]);
    assert("mysql"@[1] != "melis"@[1]);
    assert("mysql"@[1] != "mc4wp"@[1]);
    assert("mysql"@[0] != "horde"@[0]);
    assert("openssh"@[0] != "proftpd"@[0]);
    assert("openssh"@[6] != "openssl"@[6]);
    assert("openssh"@[0] != "reactjs"@[0]);
    assert("openssh"@[0] != "angular"@[0]);
    assert("openssh"@[0] != "akismet"@[0]);
    assert("openssh"@[0] != "jetpack"@[0]);
    assert("openssh"@[0] != "spectra"@[0]);
    assert("openssh"@[0] != "twisted"@[0]);
    assert("openssh"@[0] != "symfony"@[0]);
    assert("openssh"@[0] != "tinymce"@[0]);
    assert("proftpd"@[0] != "openssl"@[0]);
    assert("proftpd"@[0] != "reactjs"@[0]);
    assert("proftpd"@[0] != "angular"@[0]);
    assert("proftpd"@[0] != "akismet"@[0]);
    assert("proftpd"@[0] != "jetpack"@[0]);
    assert("proftpd"@[0] != "spectra"@[0]);
    assert("proftpd"@[0] != "twisted"@[0]);
    assert("proftpd"@[0] != "symfony"@[0]);
    assert("proftpd"@[0] != "tinymce"@[0]);
    assert("pureftpd"@[0] != "ckeditor"@[0]);
    assert("pureftpd"@[0] != "yoastseo"@[0]);
    assert("pureftpd"@[0] != "jqueryui"@[0]);
    assert("pureftpd"@[0] != "knockout"@[0]);
    assert("phpmyadmin"@[0] != "handlebars"@[0]);
    assert("phpmyadmin"@[0] != "highcharts"@[0]);
    assert("phpmyadmin"@[0] != "jscomposer"@[0]);
    assert("phpmyadmin"@[0] != "gtranslate"@[0]);
    assert("phpmyadmin"@[0] != "wpmailsmtp"@[0]);
    assert("phpmyadmin"@[1] != "prestashop"@[1]);
    assert("phpmyadmin"@[0] != "twistedweb"@[0]);
    assert("phpmyadmin"@[0] != "forminator"@[0]);
    assert("wordpress"@[0] != "angularjs"@[0]);
    assert("wordpress"@[0] != "bootstrap"@[0]);
    assert("wordpress"@[0] != "revslider"@[0]);
    assert("wordpress"@[0] != "elementor"@[0]);
    assert("wordpress"@[4] != "wordfence"@[4]);
    assert("wordpress"@[1] != "wpmembers"@[1]);
    assert("drupal"@[0] != "tomcat"@[0]);
    assert("drupal"@[0] != "jquery"@[0]);
    assert("drupal"@[0] != "lodash"@[0]);
    assert("typo3"@[0] != "httpd"@[0]);
    assert("typo3"@[0] != "nginx"@[0]);
    assert("typo3"@[0] != "plesk"@[0]);
    assert("typo3"@[0] != "melis"@[0]);
    assert("typo3"@[0] != "mc4wp"@[0]);
    assert("typo3"@[0] != "horde"@[0]);
    assert("httpd"@[0] != "nginx"@[0]);
    assert("httpd"@[0] != "plesk"@[0]);
    assert("httpd"@[0] != "melis"@[0]);
    assert("httpd"@[0] != "mc4wp"@[0]);
    assert("httpd"@[1] != "horde"@[1]);
    assert("tomcat"@[0] != "jquery"@[0]);
    assert("tomcat"@[0] != "lodash"@[0]);
    assert("nginx"@[0] != "plesk"@[0]);
    assert("nginx"@[0] != "melis"@[0]);
    assert("nginx"@[0] != "mc4wp"@[0]);
    assert("nginx"@[0] != "horde"@[0]);
    assert("openssl"@[0] != "reactjs"@[0]);
    assert("openssl"@[0] != "angular"@[0]);
    assert("openssl"@[0] != "akismet"@[0]);
    assert("openssl"@[0] != "jetpack"@[0]);
    assert("openssl"@[0] != "spectra"@[0]);
    assert("openssl"@[0] != "twisted"@[0]);
    assert("openssl"@[0] != "symfony"@[0]);
    assert("openssl"@[0] != "tinymce"@[0]);
    assert("jquery"@[0] != "lodash"@[0]);
    assert("reactjs"@[0] != "angular"@[0]);
    assert("reactjs"@[0] != "akismet"@[0]);
    assert("reactjs"@[0] != "jetpack"@[0]);
    assert("reactjs"@[0] != "spectra"@[0]);
    assert("reactjs"@[0] != "twisted"@[0]);
    assert("reactjs"@[0] != "symfony"@[0]);
    assert("reactjs"@[0] != "tinymce"@[0]);
    assert("handlebars"@[1] != "highcharts"@[1]);
    assert("handlebars"@[0] != "jscomposer"@[0]);
    assert("handlebars"@[0] != "gtranslate"@[0]);
    assert("handlebars"@[0] != "wpmailsmtp"@[0]);
    assert("handlebars"@[0] != "prestashop"@[0]);
    assert("handlebars"@[0] != "twistedweb"@[0]);
    assert("handlebars"@[0] != "forminator"@[0]);
    assert("angularjs"@[0] != "bootstrap"@[0]);
    assert("angularjs"@[0] != "revslider"@[0]);
    assert("angularjs"@[0] != "elementor"@[0]);
    assert("angularjs"@[0] != "wordfence"@[0]);
    assert("angularjs"@[0] != "wpmembers"@[0]);
    assert("gsap"@[0] != "divi"@[0]);
    assert("gsap"@[0] != "jira"@[0]);
    assert("bootstrap"@[0] != "revslider"@[0]);
    assert("bootstrap"@[0] != "elementor"@[0]);
    assert("bootstrap"@[0] != "wordfence"@[0]);
    assert("bootstrap"@[0] != "wpmembers"@[0]);
    assert("angular"@[1] != "akismet"@[1]);
    assert("angular"@[0] != "jetpack"@[0]);
    assert("angular"@[0] != "spectra"@[0]);
    assert("angular"@[0] != "twisted"@[0]);
    assert("angular"@[0] != "symfony"@[0]);
    assert("angular"@[0] != "tinymce"@[0]);
    assert("plesk"@[0] != "melis"@[0]);
    assert("plesk"@[0] != "mc4wp"@[0]);
    assert("plesk"@[0] != "horde"@[0]);
    assert("ckeditor"@[0] != "yoastseo"@[0]);
    assert("ckeditor"@[0] != "jqueryui"@[0]);
    assert("ckeditor"@[0] != "knockout"@[0]);
    assert("highcharts"@[0] != "jscomposer"@[0]);
    assert("highcharts"@[0] != "gtranslate"@[0]);
    assert("highcharts"@[0] != "wpmailsmtp"@[0]);
    assert("highcharts"@[0] != "prestashop"@[0]);
    assert("highcharts"@[0] != "twistedweb"@[0]);
    assert("highcharts"@[0] != "forminator"@[0]);
    assert("yoastseo"@[0] != "jqueryui"@[0]);
    assert("yoastseo"@[0] != "knockout"@[0]);
    assert("revslider"@[0] != "elementor"@[0]);
    assert("revslider"@[0] != "wordfence"@[0]);
    assert("revslider"@[0] != "wpmembers"@[0]);
    assert("jscomposer"@[0] != "gtranslate"@[0]);
    assert("jscomposer"@[0] != "wpmailsmtp"@[0]);
    assert("jscomposer"@[0] != "prestashop"@[0]);
    assert("jscomposer"@[0] != "twistedweb"@[0]);
    assert("jscomposer"@[0] != "forminator"@[0]);
    assert("contactform"@[0] != "woocommerce"@[0]);
    assert("contactform"@[0] != "wpformslite"@[0]);
    assert("contactform"@[0] != "allinoneseo"@[0]);
    assert("contactform"@[0] != "layerslider"@[0]);
    assert("contactform"@[0] != "healthcheck"@[0]);
    assert("melis"@[1] != "mc4wp"@[1]);
    assert("melis"@[0] != "horde"@[0]);
    assert("elementor"@[0] != "wordfence"@[0]);
    assert("elementor"@[0] != "wpmembers"@[0]);
    assert("elementreadylite"@[1] != "emailsubscribers"@[1]);
    assert("gtranslate"@[0] != "wpmailsmtp"@[0]);
    assert("gtranslate"@[0] != "prestashop"@[0]);
    assert("gtranslate"@[0] != "twistedweb"@[0]);
    assert("gtranslate"@[0] != "forminator"@[0]);
    assert("woocommerce"@[1] != "wpformslite"@[1]);
    assert("woocommerce"@[0] != "allinoneseo"@[0]);
    assert("woocommerce"@[0] != "layerslider"@[0]);
    assert("woocommerce"@[0] != "healthcheck"@[0]);
    assert("divi"@[0] != "jira"@[0]);
    assert("akismet"@[0] != "jetpack"@[0]);
    assert("akismet"@[0] != "spectra"@[0]);
    assert("akismet"@[0] != "twisted"@[0]);
    assert("akismet"@[0] != "symfony"@[0]);
    assert("akismet"@[0] != "tinymce"@[0]);
    assert("wpformslite"@[0] != "allinoneseo"@[0]);
    assert("wpformslite"@[0] != "layerslider"@[0]);
    assert("wpformslite"@[0] != "healthcheck"@[0]);
    assert("allinonewpmigration"@[0] != "bettersearchreplace"@[0]);
    assert("jetpack"@[0] != "spectra"@[0]);
    assert("jetpack"@[0] != "twisted"@[0]);
    assert("jetpack"@[0] != "symfony"@[0]);
    assert("jetpack"@[0] != "tinymce"@[0]);
    assert("litespeedcache"@[0] != "phonesystem3cx"@[0]);
    assert("allinoneseo"@[0] != "layerslider"@[0]);
    assert("allinoneseo"@[0] != "healthcheck"@[0]);
    assert("wordfence"@[1] != "wpmembers"@[1]);
    assert("wpmailsmtp"@[0] != "prestashop"@[0]);
    assert("wpmailsmtp"@[0] != "twistedweb"@[0]);
    assert("wpmailsmtp"@[0] != "forminator"@[0]);
    assert("mc4wp"@[0] != "horde"@[0]);
    assert("spectra"@[0] != "twisted"@[0]);
    assert("spectra"@[1] != "symfony"@[1]);
    assert("spectra"@[0] != "tinymce"@[0]);
    assert("squirrelmail"@[0] != "wpsupercache"@[0]);
    assert("squirrelmail"@[0] != "jquerymobile"@[0]);
    assert("prestashop"@[0] != "twistedweb"@[0]);
    assert("prestashop"@[0] != "forminator"@[0]);
    assert("twisted"@[0] != "symfony"@[0]);
    assert("twisted"@[1] != "tinymce"@[1]);
    assert("twistedweb"@[0] != "forminator"@[0]);
    assert("symfony"@[0] != "tinymce"@[0]);
    assert("jqueryui"@[0] != "knockout"@[0]);
    assert("layerslider"@[0] != "healthcheck"@[0]);
    assert("wpsupercache"@[0] != "jquerymobile"@[0]);
    assert("dovecot"@.len() == 7);
    assert("exim"@.len() == 4);
    assert("mariadb"@.len() == 7);
    assert("mysql"@.len() == 5);
    assert("openssh"@.len() == 7);
    assert("proftpd"@.len() == 7);
    assert("pureftpd"@.len() == 8);
    assert("os"@.len() == 2);
    assert("php"@.len() == 3);
    assert("phpmyadmin"@.len() == 10);
    assert("wordpress"@.len() == 9);
    assert("drupal"@.len() == 6);
    assert("typo3"@.len() == 5);
    assert("httpd"@.len() == 5);
    assert("tomcat"@.len() == 6);
    assert("nginx"@.len() == 5);
    assert("openssl"@.len() == 7);
    assert("jquery"@.len() == 6);
    assert("reactjs"@.len() == 7);
    assert("handlebars"@.len() == 10);
    assert("lodash"@.len() == 6);
    assert("angularjs"@.len() == 9);
    assert("gsap"@.len() == 4);
    assert("bootstrap"@.len() == 9);
    assert("angular"@.len() == 7);
    assert("plesk"@.len() == 5);
    assert("ckeditor"@.len() == 8);
    assert("highcharts"@.len() == 10);
    assert("yoastseo"@.len() == 8);
    assert("revslider"@.len() == 9);
    assert("jscomposer"@.len() == 10);
    assert("contactform"@.len() == 11);
    assert("melis"@.len() == 5);
    assert("elementor"@.len() == 9);
    assert("elementreadylite"@.len() == 16);
    assert("gtranslate"@.len() == 10);
    assert("woocommerce"@.len() == 11);
    assert("divi"@.len() == 4);
    assert("classiceditor"@.len() == 13);
    assert("akismet"@.len() == 7);
    assert("wpformslite"@.len() == 11);
    assert("allinonewpmigration"@.len() == 19);
    assert("reallysimplessl"@.len() == 15);
    assert("jetpack"@.len() == 7);
    assert("litespeedcache"@.len() == 14);
    assert("allinoneseo"@.len() == 11);
    assert("wordfence"@.len() == 9);
    assert("wpmailsmtp"@.len() == 10);
    assert("mc4wp"@.len() == 5);
    assert("spectra"@.len() == 7);
    assert("squirrelmail"@.len() == 12);
    assert("phonesystem3cx"@.len() == 14);
    assert("prestashop"@.len() == 10);
    assert("jira"@.len() == 4);
    assert("twisted"@.len() == 7);
    assert("twistedweb"@.len() == 10);
    assert("symfony"@.len() == 7);
    assert("tinymce"@.len() == 7);
    assert("jqueryui"@.len() == 8);
    assert("layerslider"@.len() == 11);
    assert("wpmembers"@.len() == 9);
    assert("forminator"@.len() == 10);
    assert("horde"@.len() == 5);
    assert("knockout"@.len() == 8);
    assert("wpsupercache"@.len() == 12);
    assert("emailsubscribers"@.len() == 16);
    assert("bettersearchreplace"@.len() == 19);
    assert("advancedcustomfields"@.len() == 20);
    assert("healthcheck"@.len() == 11);
    assert("jquerymobile"@.len() == 12);
}

/// Whether a character is an ASCII letter or digit.
pub open spec fn is_ascii_alphanumeric(c: char) -> bool {
    ('a' <= c && c <= 'z') || ('A' <= c && c <= 'Z') || ('0' <= c && c <= '9')
}

/// Two technologies never share a display name.
pub proof fn law_display_names_distinct(t1: Technology, t2: Technology)
    ensures
        t1 != t2 ==> t1.spec_display_name() != t2.spec_display_name(),
{
    reveal_strlit("Dovecot");
    reveal_strlit("Exim");
    reveal_strlit("MariaDB");
    reveal_strlit("MySQL");
    reveal_strlit("OpenSSH");
    reveal_strlit("ProFTPD");
    reveal_strlit("PureFTPd");
    reveal_strlit("OS");
    reveal_strlit("Ubuntu");
    reveal_strlit("Debian");
    reveal_strlit("CentOS");
    reveal_strlit("Fedora");
    reveal_strlit("AlmaLinux");
    reveal_strlit("OracleLinux");
    reveal_strlit("FreeBSD");
    reveal_strlit("OpenBSD");
    reveal_strlit("NetBSD");
    reveal_strlit("Unix");
    reveal_strlit("PHP");
    reveal_strlit("phpMyAdmin");
    reveal_strlit("TYPO3");
    reveal_strlit("WordPress");
    reveal_strlit("Drupal");
    reveal_strlit("Apachehttpd");
    reveal_strlit("Tomcat");
    reveal_strlit("Nginx");
    reveal_strlit("OpenSSL");
    reveal_strlit("jQuery");
    reveal_strlit("React");
    reveal_strlit("Handlebars");
    reveal_strlit("Lodash");
    reveal_strlit("AngularJS");
    reveal_strlit("GSAP");
    reveal_strlit("Bootstrap");
    reveal_strlit("Angular");
    reveal_strlit("Plesk");
    reveal_strlit("CKEditor");
    reveal_strlit("Highcharts");
    reveal_strlit("YoastSEO");
    reveal_strlit("SliderRevolution");
    reveal_strlit("JSComposer");
    reveal_strlit("ContactForm7");
    reveal_strlit("Melis");
    reveal_strlit("Elementor");
    reveal_strlit("ElementsReadyLite");
    reveal_strlit("GTranslate");
    reveal_strlit("WooCommerce");
    reveal_strlit("Divi");
    reveal_strlit("ClassicEditor");
    reveal_strlit("Akismet");
    reveal_strlit("WpFormsLite");
    reveal_strlit("AllInOneWpMigration");
    reveal_strlit("ReallySimpleSSL");
    reveal_strlit("Jetpack");
    reveal_strlit("LiteSpeedCache");
    reveal_strlit("AllInOneSEO");
    reveal_strlit("Wordfence");
    reveal_strlit("WpMailSmtp");
    reveal_strlit("Mc4wp");
    reveal_strlit("Spectra");
    reveal_strlit("SquirrelMail");
    reveal_strlit("PhoneSystem3CX");
    reveal_strlit("Prestashop");
    reveal_strlit("Jira");
    reveal_strlit("Twisted");
    reveal_strlit("TwistedWeb");
    reveal_strlit("Symfony");
    reveal_strlit("TinyMCE");
    reveal_strlit("jQueryUI");
    reveal_strlit("LayerSlider");
    reveal_strlit("WpMembers");
    reveal_strlit("Forminator");
    reveal_strlit("Horde");
    reveal_strlit("Knockout");
    reveal_strlit("WpSuperCache");
    reveal_strlit("EmailSubscribers");
    reveal_strlit("BetterSearchReplace");
    reveal_strlit("AdvancedCustomFields");
    reveal_strlit("HealthCheck");
    reveal_strlit("jQueryMobile");
    assert("Dovecot"@.len() == 7);
    assert("Exim"@.len() == 4);
    assert("MariaDB"@.len() == 7);
    assert("MySQL"@.len() == 5);
    assert("OpenSSH"@.len() == 7);
    assert("ProFTPD"@.len() == 7);
    assert("PureFTPd"@.len() == 8);
    assert("OS"@.len() == 2);
    assert("Ubuntu"@.len() == 6);
    assert("Debian"@.len() == 6);
    assert("CentOS"@.len() == 6);
    assert("Fedora"@.len() == 6);
    assert("AlmaLinux"@.len() == 9);
    assert("OracleLinux"@.len() == 11);
    assert("FreeBSD"@.len() == 7);
    assert("OpenBSD"@.len() == 7);
    assert("NetBSD"@.len() == 6);
    assert("Unix"@.len() == 4);
    assert("PHP"@.len() == 3);
    assert("phpMyAdmin"@.len() == 10);
    assert("TYPO3"@.len() == 5);
    assert("WordPress"@.len() == 9);
    assert("Drupal"@.len() == 6);
    assert("Apachehttpd"@.len() == 11);
    assert("Tomcat"@.len() == 6);
    assert("Nginx"@.len() == 5);
    assert("OpenSSL"@.len() == 7);
    assert("jQuery"@.len() == 6);
    assert("React"@.len() == 5);
    assert("Handlebars"@.len() == 10);
    assert("Lodash"@.len() == 6);
    assert("AngularJS"@.len() == 9);
    assert("GSAP"@.len() == 4);
    assert("Bootstrap"@.len() == 9);
    assert("Angular"@.len() == 7);
    assert("Plesk"@.len() == 5);
    assert("CKEditor"@.len() == 8);
    assert("Highcharts"@.len() == 10);
    assert("YoastSEO"@.len() == 8);
    assert("SliderRevolution"@.len() == 16);
    assert("JSComposer"@.len() == 10);
    assert("ContactForm7"@.len() == 12);
    assert("Melis"@.len() == 5);
    assert("Elementor"@.len() == 9);
    assert("ElementsReadyLite"@.len() == 17);
    assert("GTranslate"@.len() == 10);
    assert("WooCommerce"@.len() == 11);
    assert("Divi"@.len() == 4);
    assert("ClassicEditor"@.len() == 13);
    assert("Akismet"@.len() == 7);
    assert("WpFormsLite"@.len() == 11);
    assert("AllInOneWpMigration"@.len() == 19);
    assert("ReallySimpleSSL"@.len() == 15);
    assert("Jetpack"@.len() == 7);
    assert("LiteSpeedCache"@.len() == 14);
    assert("AllInOneSEO"@.len() == 11);
    assert("Wordfence"@.len() == 9);
    assert("WpMailSmtp"@.len() == 10);
    assert("Mc4wp"@.len() == 5);
    assert("Spectra"@.len() == 7);
    assert("SquirrelMail"@.len() == 12);
    assert("PhoneSystem3CX"@.len() == 14);
    assert("Prestashop"@.len() == 10);
    assert("Jira"@.len() == 4);
    assert("Twisted"@.len() == 7);
    assert("TwistedWeb"@.len() == 10);
    assert("Symfony"@.len() == 7);
    assert("TinyMCE"@.len() == 7);
    assert("jQueryUI"@.len() == 8);
    assert("LayerSlider"@.len() == 11);
    assert("WpMembers"@.len() == 9);
    assert("Forminator"@.len() == 10);
    assert("Horde"@.len() == 5);
    assert("Knockout"@.len() == 8);
    assert("WpSuperCache"@.len() == 12);
    assert("EmailSubscribers"@.len() == 16);
    assert("BetterSearchReplace"@.len() == 19);
    assert("AdvancedCustomFields"@.len() == 20);
    assert("HealthCheck"@.len() == 11);
    assert("jQueryMobile"@.len() == 12);
    assert("Dovecot"@[0] != "MariaDB"@[0]);
    assert("Dovecot"@[0] != "OpenSSH"@[0]);
    assert("Dovecot"@[0] != "ProFTPD"@[0]);
    assert("Dovecot"@[0] != "FreeBSD"@[0]);
    assert("Dovecot"@[0] != "OpenBSD"@[0]);
    assert("Dovecot"@[0] != "OpenSSL"@[0]);
    assert("Dovecot"@[0] != "Angular"@[0]);
    assert("Dovecot"@[0] != "Akismet"@[0]);
    assert("Dovecot"@[0] != "Jetpack"@[0]);
    assert("Dovecot"@[0] != "Spectra"@[0]);
    assert("Dovecot"@[0] != "Twisted"@[0]);
    assert("Dovecot"@[0] != "Symfony"@[0]);
    assert("Dovecot"@[0] != "TinyMCE"@[0]);
    assert("Exim"@[0] != "Unix"@[0]);
    assert("Exim"@[0] != "GSAP"@[0]);
    assert("Exim"@[0] != "Divi"@[0]);
    assert("Exim"@[0] != "Jira"@[0]);
    assert("MariaDB"@[0] != "OpenSSH"@[0]);
    assert("MariaDB"@[0] != "ProFTPD"@[0]);
    assert("MariaDB"@[0] != "FreeBSD"@[0]);
    assert("MariaDB"@[0] != "OpenBSD"@[0]);
    assert("MariaDB"@[0] != "OpenSSL"@[0]);
    assert("MariaDB"@[0] != "Angular"@[0]);
    assert("MariaDB"@[0] != "Akismet"@[0]);
    assert("MariaDB"@[0] != "Jetpack"@[0]);
    assert("MariaDB"@[0] != "Spectra"@[0]);
    assert("MariaDB"@[0] != "Twisted"@[0]);
    assert("MariaDB"@[0] != "Symfony"@[0]);
    assert("MariaDB"@[0] != "TinyMCE"@[0]);
    assert("MySQL"@[0] != "TYPO3"@[0]);
    assert("MySQL"@[0] != "Nginx"@[0]);
    assert("MySQL"@[0] != "React"@[0]);
    assert("MySQL"@[0] != "Plesk"@[0]);
    assert("MySQL"@[1] != "Melis"@[1]);
    assert("MySQL"@[1] != "Mc4wp"@[1]);
    assert("MySQL"@[0] != "Horde"@[0]);
    assert("OpenSSH"@[0] != "ProFTPD"@[0]);
    assert("OpenSSH"@[0] != "FreeBSD"@[0]);
    assert("OpenSSH"@[4] != "OpenBSD"@[4]);
    assert("OpenSSH"@[6] != "OpenSSL"@[6]);
    assert("OpenSSH"@[0] != "Angular"@[0]);
    assert("OpenSSH"@[0] != "Akismet"@[0]);
    assert("OpenSSH"@[0] != "Jetpack"@[0]);
    assert("OpenSSH"@[0] != "Spectra"@[0]);
    assert("OpenSSH"@[0] != "Twisted"@[0]);
    assert("OpenSSH"@[0] != "Symfony"@[0]);
    assert("OpenSSH"@[0] != "TinyMCE"@[0]);
    assert("ProFTPD"@[0] != "FreeBSD"@[0]);
    assert("ProFTPD"@[0] != "OpenBSD"@[0]);
    assert("ProFTPD"@[0] != "OpenSSL"@[0]);
    assert("ProFTPD"@[0] != "Angular"@[0]);
    assert("ProFTPD"@[0] != "Akismet"@[0]);
    assert("ProFTPD"@[0] != "Jetpack"@[0]);
    assert("ProFTPD"@[0] != "Spectra"@[0]);
    assert("ProFTPD"@[0] != "Twisted"@[0]);
    assert("ProFTPD"@[0] != "Symfony"@[0]);
    assert("ProFTPD"@[0] != "TinyMCE"@[0]);
    assert("PureFTPd"@[0] != "CKEditor"@[0]);
    assert("PureFTPd"@[0] != "YoastSEO"@[0]);
    assert("PureFTPd"@[0] != "jQueryUI"@[0]);
    assert("PureFTPd"@[0] != "Knockout"@[0]);
    assert("Ubuntu"@[0] != "Debian"@[0]);
    assert("Ubuntu"@[0] != "CentOS"@[0]);
    assert("Ubuntu"@[0] != "Fedora"@[0]);
    assert("Ubuntu"@[0] != "NetBSD"@[0]);
    assert("Ubuntu"@[0] != "Drupal"@[0]);
    assert("Ubuntu"@[0] != "Tomcat"@[0]);
    assert("Ubuntu"@[0] != "jQuery"@[0]);
    assert("Ubuntu"@[0] != "Lodash"@[0]);
    assert("Debian"@[0] != "CentOS"@[0]);
    assert("Debian"@[0] != "Fedora"@[0]);
    assert("Debian"@[0] != "NetBSD"@[0]);
    assert("Debian"@[1] != "Drupal"@[1]);
    assert("Debian"@[0] != "Tomcat"@[0]);
    assert("Debian"@[0] != "jQuery"@[0]);
    assert("Debian"@[0] != "Lodash"@[0]);
    assert("CentOS"@[0] != "Fedora"@[0]);
    assert("CentOS"@[0] != "NetBSD"@[0]);
    assert("CentOS"@[0] != "Drupal"@[0]);
    assert("CentOS"@[0] != "Tomcat"@[0]);
    assert("CentOS"@[0] != "jQuery"@[0]);
    assert("CentOS"@[0] != "Lodash"@[0]);
    assert("Fedora"@[0] != "NetBSD"@[0]);
    assert("Fedora"@[0] != "Drupal"@[0]);
    assert("Fedora"@[0] != "Tomcat"@[0]);
    assert("Fedora"@[0] != "jQuery"@[0]);
    assert("Fedora"@[0] != "Lodash"@[0]);
    assert("AlmaLinux"@[0] != "WordPress"@[0]);
    assert("AlmaLinux"@[1] != "AngularJS"@[1]);
    assert("AlmaLinux"@[0] != "Bootstrap"@[0]);
    assert("AlmaLinux"@[0] != "Elementor"@[0]);
    assert("AlmaLinux"@[0] != "Wordfence"@[0]);
    assert("AlmaLinux"@[0] != "WpMembers"@[0]);
    assert("OracleLinux"@[0] != "Apachehttpd"@[0]);
    assert("OracleLinux"@[0] != "WooCommerce"@[0]);
    assert("OracleLinux"@[0] != "WpFormsLite"@[0]);
    assert("OracleLinux"@[0] != "AllInOneSEO"@[0]);
    assert("OracleLinux"@[0] != "LayerSlider"@[0]);
    assert("OracleLinux"@[0] != "HealthCheck"@[0]);
    assert("FreeBSD"@[0] != "OpenBSD"@[0]);
    assert("FreeBSD"@[0] != "OpenSSL"@[0]);
    assert("FreeBSD"@[0] != "Angular"@[0]);
    assert("FreeBSD"@[0] != "Akismet"@[0]);
    assert("FreeBSD"@[0] != "Jetpack"@[0]);
    assert("FreeBSD"@[0] != "Spectra"@[0]);
    assert("FreeBSD"@[0] != "Twisted"@[0]);
    assert("FreeBSD"@[0] != "Symfony"@[0]);
    assert("FreeBSD"@[0] != "TinyMCE"@[0]);
    assert("OpenBSD"@[4] != "OpenSSL"@[4]);
    assert("OpenBSD"@[0] != "Angular"@[0]);
    assert("OpenBSD"@[0] != "Akismet"@[0]);
    assert("OpenBSD"@[0] != "Jetpack"@[0]);
    assert("OpenBSD"@[0] != "Spectra"@[0]);
    assert("OpenBSD"@[0] != "Twisted"@[0]);
    assert("OpenBSD"@[0] != "Symfony"@[0]);
    assert("OpenBSD"@[0] != "TinyMCE"@[0]);
    assert("NetBSD"@[0] != "Drupal"@[0]);
    assert("NetBSD"@[0] != "Tomcat"@[0]);
    assert("NetBSD"@[0] != "jQuery"@[0]);
    assert("NetBSD"@[0] != "Lodash"@[0]);
    assert("Unix"@[0] != "GSAP"@[0]);
    assert("Unix"@[0] != "Divi"@[0]);
    assert("Unix"@[0] != "Jira"@[0]);
    assert("phpMyAdmin"@[0] != "Handlebars"@[0]);
    assert("phpMyAdmin"@[0] != "Highcharts"@[0]);
    assert("phpMyAdmin"@[0] != "JSComposer"@[0]);
    assert("phpMyAdmin"@[0] != "GTranslate"@[0]);
    assert("phpMyAdmin"@[0] != "WpMailSmtp"@[0]);
    assert("phpMyAdmin"@[0] != "Prestashop"@[0]);
    assert("phpMyAdmin"@[0] != "TwistedWeb"@[0]);
    assert("phpMyAdmin"@[0] != "Forminator"@[0]);
    assert("TYPO3"@[0] != "Nginx"@[0]);
    assert("TYPO3"@[0] != "React"@[0]);
    assert("TYPO3"@[0] != "Plesk"@[0]);
    assert("TYPO3"@[0] != "Melis"@[0]);
    assert("TYPO3"@[0] != "Mc4wp"@[0]);
    assert("TYPO3"@[0] != "Horde"@[0]);
    assert("WordPress"@[0] != "AngularJS"@[0]);
    assert("WordPress"@[0] != "Bootstrap"@[0]);
    assert("WordPress"@[0] != "Elementor"@[0]);
    assert("WordPress"@[4] != "Wordfence"@[4]);
    assert("WordPress"@[1] != "WpMembers"@[1]);
    assert("Drupal"@[0] != "Tomcat"@[0]);
    assert("Drupal"@[0] != "jQuery"@[0]);
    assert("Drupal"@[0] != "Lodash"@[0]);
    assert("Apachehttpd"@[0] != "WooCommerce"@[0]);
    assert("Apachehttpd"@[0] != "WpFormsLite"@[0]);
    assert("Apachehttpd"@[1] != "AllInOneSEO"@[1]);
    assert("Apachehttpd"@[0] != "LayerSlider"@[0]);
    assert("Apachehttpd"@[0] != "HealthCheck"@[0]);
    assert("Tomcat"@[0] != "jQuery"@[0]);
    assert("Tomcat"@[0] != "Lodash"@[0]);
    assert("Nginx"@[0] != "React"@[0]);
    assert("Nginx"@[0] != "Plesk"@[0]);
    assert("Nginx"@[0] != "Melis"@[0]);
    assert("Nginx"@[0] != "Mc4wp"@[0]);
    assert("Nginx"@[0] != "Horde"@[0]);
    assert("OpenSSL"@[0] != "Angular"@[0]);
    assert("OpenSSL"@[0] != "Akismet"@[0]);
    assert("OpenSSL"@[0] != "Jetpack"@[0]);
    assert("OpenSSL"@[0] != "Spectra"@[0]);
    assert("OpenSSL"@[0] != "Twisted"@[0]);
    assert("OpenSSL"@[0] != "Symfony"@[0]);
    assert("OpenSSL"@[0] != "TinyMCE"@[0]);
    assert("jQuery"@[0] != "Lodash"@[0]);
    assert("React"@[0] != "Plesk"@[0]);
    assert("React"@[0] != "Melis"@[0]);
    assert("React"@[0] != "Mc4wp"@[0]);
    assert("React"@[0] != "Horde"@[0]);
    assert("Handlebars"@[1] != "Highcharts"@[1]);
    assert("Handlebars"@[0] != "JSComposer"@[0]);
    assert("Handlebars"@[0] != "GTranslate"@[0]);
    assert("Handlebars"@[0] != "WpMailSmtp"@[0]);
    assert("Handlebars"@[0] != "Prestashop"@[0]);
    assert("Handlebars"@[0] != "TwistedWeb"@[0]);
    assert("Handlebars"@[0] != "Forminator"@[0]);
    assert("AngularJS"@[0] != "Bootstrap"@[0]);
    assert("AngularJS"@[0] != "Elementor"@[0]);
    assert("AngularJS"@[0] != "Wordfence"@[0]);
    assert("AngularJS"@[0] != "WpMembers"@[0]);
    assert("GSAP"@[0] != "Divi"@[0]);
    assert("GSAP"@[0] != "Jira"@[0]);
    assert("Bootstrap"@[0] != "Elementor"@[0]);
    assert("Bootstrap"@[0] != "Wordfence"@[0]);
    assert("Bootstrap"@[0] != "WpMembers"@[0]);
    assert("Angular"@[1] != "Akismet"@[1]);
    assert("Angular"@[0] != "Jetpack"@[0]);
    assert("Angular"@[0] != "Spectra"@[0]);
    assert("Angular"@[0] != "Twisted"@[0]);
    assert("Angular"@[0] != "Symfony"@[0]);
    assert("Angular"@[0] != "TinyMCE"@[0]);
    assert("Plesk"@[0] != "Melis"@[0]);
    assert("Plesk"@[0] != "Mc4wp"@[0]);
    assert("Plesk"@[0] != "Horde"@[0]);
    assert("CKEditor"@[0] != "YoastSEO"@[0]);
    assert("CKEditor"@[0] != "jQueryUI"@[0]);
    assert("CKEditor"@[0] != "Knockout"@[0]);
    assert("Highcharts"@[0] != "JSComposer"@[0]);
    assert("Highcharts"@[0] != "GTranslate"@[0]);
    assert("Highcharts"@[0] != "WpMailSmtp"@[0]);
    assert("Highcharts"@[0] != "Prestashop"@[0]);
    assert("Highcharts"@[0] != "TwistedWeb"@[0]);
    assert("Highcharts"@[0] != "Forminator"@[0]);
    assert("YoastSEO"@[0] != "jQueryUI"@[0]);
    assert("YoastSEO"@[0] != "Knockout"@[0]);
    assert("SliderRevolution"@[0] != "EmailSubscribers"@[0]);
    assert("JSComposer"@[0] != "GTranslate"@[0]);
    assert("JSComposer"@[0] != "WpMailSmtp"@[0]);
    assert("JSComposer"@[0] != "Prestashop"@[0]);
    assert("JSComposer"@[0] != "TwistedWeb"@[0]);
    assert("JSComposer"@[0] != "Forminator"@[0]);
    assert("ContactForm7"@[0] != "SquirrelMail"@[0]);
    assert("ContactForm7"@[0] != "WpSuperCache"@[0]);
    assert("ContactForm7"@[0] != "jQueryMobile"@[0]);
    assert("Melis"@[1] != "Mc4wp"@[1]);
    assert("Melis"@[0] != "Horde"@[0]);
    assert("Elementor"@[0] != "Wordfence"@[0]);
    assert("Elementor"@[0] != "WpMembers"@[0]);
    assert("GTranslate"@[0] != "WpMailSmtp"@[0]);
    assert("GTranslate"@[0] != "Prestashop"@[0]);
    assert("GTranslate"@[0] != "TwistedWeb"@[0]);
    assert("GTranslate"@[0] != "Forminator"@[0]);
    assert("WooCommerce"@[1] != "WpFormsLite"@[1]);
    assert("WooCommerce"@[0] != "AllInOneSEO"@[0]);
    assert("WooCommerce"@[0] != "LayerSlider"@[0]);
    assert("WooCommerce"@[0] != "HealthCheck"@[0]);
    assert("Divi"@[0] != "Jira"@[0]);
    assert("Akismet"@[0] != "Jetpack"@[0]);
    assert("Akismet"@[0] != "Spectra"@[0]);
    assert("Akismet"@[0] != "Twisted"@[0]);
    assert("Akismet"@[0] != "Symfony"@[0]);
    assert("Akismet"@[0] != "TinyMCE"@[0]);
    assert("WpFormsLite"@[0] != "AllInOneSEO"@[0]);
    assert("WpFormsLite"@[0] != "LayerSlider"@[0]);
    assert("WpFormsLite"@[0] != "HealthCheck"@[0]);
    assert("AllInOneWpMigration"@[0] != "BetterSearchReplace"@[0]);
    assert("Jetpack"@[0] != "Spectra"@[0]);
    assert("Jetpack"@[0] != "Twisted"@[0]);
    assert("Jetpack"@[0] != "Symfony"@[0]);
    assert("Jetpack"@[0] != "TinyMCE"@[0]);
    assert("LiteSpeedCache"@[0] != "PhoneSystem3CX"@[0]);
    assert("AllInOneSEO"@[0] != "LayerSlider"@[0]);
    assert("AllInOneSEO"@[0] != "HealthCheck"@[0]);
    assert("Wordfence"@[1] != "WpMembers"@[1]);
    assert("WpMailSmtp"@[0] != "Prestashop"@[0]);
    assert("WpMailSmtp"@[0] != "TwistedWeb"@[0]);
    assert("WpMailSmtp"@[0] != "Forminator"@[0]);
    assert("Mc4wp"@[0] != "Horde"@[0]);
    assert("Spectra"@[0] != "Twisted"@[0]);
    assert("Spectra"@[1] != "Symfony"@[1]);
    assert("Spectra"@[0] != "TinyMCE"@[0]);
    assert("SquirrelMail"@[0] != "WpSuperCache"@[0]);
    assert("SquirrelMail"@[0] != "jQueryMobile"@[0]);
    assert("Prestashop"@[0] != "TwistedWeb"@[0]);
    assert("Prestashop"@[0] != "Forminator"@[0]);
    assert("Twisted"@[0] != "Symfony"@[0]);
    assert("Twisted"@[1] != "TinyMCE"@[1]);
    assert("TwistedWeb"@[0] != "Forminator"@[0]);
    assert("Symfony"@[0] != "TinyMCE"@[0]);
    assert("jQueryUI"@[0] != "Knockout"@[0]);
    assert("LayerSlider"@[0] != "HealthCheck"@[0]);
    assert("WpSuperCache"@[0] != "jQueryMobile"@[0]);
}

/// A display name is non-empty and made only of ASCII letters and digits.
pub proof fn law_display_name_alphanumeric(t: Technology)
    ensures
        t.spec_display_name().len() > 0,
        forall|i: int| 0 <= i < t.spec_display_name().len() ==> is_ascii_alphanumeric(#[trigger] t.spec_display_name()[i]),
{
    reveal_strlit("Dovecot");
    reveal_strlit("Exim");
    reveal_strlit("MariaDB");
    reveal_strlit("MySQL");
    reveal_strlit("OpenSSH");
    reveal_strlit("ProFTPD");
    reveal_strlit("PureFTPd");
    reveal_strlit("OS");
    reveal_strlit("Ubuntu");
    reveal_strlit("Debian");
    reveal_strlit("CentOS");
    reveal_strlit("Fedora");
    reveal_strlit("AlmaLinux");
    reveal_strlit("OracleLinux");
    reveal_strlit("FreeBSD");
    reveal_strlit("OpenBSD");
    reveal_strlit("NetBSD");
    reveal_strlit("Unix");
    reveal_strlit("PHP");
    reveal_strlit("phpMyAdmin");
    reveal_strlit("TYPO3");
    reveal_strlit("WordPress");
    reveal_strlit("Drupal");
    reveal_strlit("Apachehttpd");
    reveal_strlit("Tomcat");
    reveal_strlit("Nginx");
    reveal_strlit("OpenSSL");
    reveal_strlit("jQuery");
    reveal_strlit("React");
    reveal_strlit("Handlebars");
    reveal_strlit("Lodash");
    reveal_strlit("AngularJS");
    reveal_strlit("GSAP");
    reveal_strlit("Bootstrap");
    reveal_strlit("Angular");
    reveal_strlit("Plesk");
    reveal_strlit("CKEditor");
    reveal_strlit("Highcharts");
    reveal_strlit("YoastSEO");
    reveal_strlit("SliderRevolution");
    reveal_strlit("JSComposer");
    reveal_strlit("ContactForm7");
    reveal_strlit("Melis");
    reveal_strlit("Elementor");
    reveal_strlit("ElementsReadyLite");
    reveal_strlit("GTranslate");
    reveal_strlit("WooCommerce");
    reveal_strlit("Divi");
    reveal_strlit("ClassicEditor");
    reveal_strlit("Akismet");
    reveal_strlit("WpFormsLite");
    reveal_strlit("AllInOneWpMigration");
    reveal_strlit("ReallySimpleSSL");
    reveal_strlit("Jetpack");
    reveal_strlit("LiteSpeedCache");
    reveal_strlit("AllInOneSEO");
    reveal_strlit("Wordfence");
    reveal_strlit("WpMailSmtp");
    reveal_strlit("Mc4wp");
    reveal_strlit("Spectra");
    reveal_strlit("SquirrelMail");
    reveal_strlit("PhoneSystem3CX");
    reveal_strlit("Prestashop");
    reveal_strlit("Jira");
    reveal_strlit("Twisted");
    reveal_strlit("TwistedWeb");
    reveal_strlit("Symfony");
    reveal_strlit("TinyMCE");
    reveal_strlit("jQueryUI");
    reveal_strlit("LayerSlider");
    reveal_strlit("WpMembers");
    reveal_strlit("Forminator");
    reveal_strlit("Horde");
    reveal_strlit("Knockout");
    reveal_strlit("WpSuperCache");
    reveal_strlit("EmailSubscribers");
    reveal_strlit("BetterSearchReplace");
    reveal_strlit("AdvancedCustomFields");
    reveal_strlit("HealthCheck");
    reveal_strlit("jQueryMobile");
}

/// The technologies whose display name does not spell their command-line
/// name: Apache httpd, React, Slider Revolution, Contact Form 7 and
/// Elements Ready Lite.
pub open spec fn display_name_differs_from_command_line_name(t: Technology) -> bool {
    t == Technology::Httpd || t == Technology::ReactJS || t == Technology::WPPRevSlider || t == Technology::WPPContactForm || t == Technology::WPPElementsReadyLite
}

/// A technology's display name and its command-line name name the same
/// product: apart from the few listed technologies, the command-line name
/// is the display name with its letters in lower case.
pub proof fn law_display_name_matches_command_line_name(t: Technology)
    ensures
        !display_name_differs_from_command_line_name(t) ==> (t.spec_possible_value() matches Some(n)
            ==> crate::models::reqres::names_equal_ignoring_case(t.spec_display_name(), n)),
{
    match t {
        Technology::Dovecot => {
            reveal_strlit("Dovecot");
            reveal_strlit("dovecot");
        },
        Technology::Exim => {
            reveal_strlit("Exim");
            reveal_strlit("exim");
        },
        Technology::MariaDB => {
            reveal_strlit("MariaDB");
            reveal_strlit("mariadb");
        },
        Technology::MySQL => {
            reveal_strlit("MySQL");
            reveal_strlit("mysql");
        },
        Technology::OpenSSH => {
            reveal_strlit("OpenSSH");
            reveal_strlit("openssh");
        },
        Technology::ProFTPD => {
            reveal_strlit("ProFTPD");
            reveal_strlit("proftpd");
        },
        Technology::PureFTPd => {
            reveal_strlit("PureFTPd");
            reveal_strlit("pureftpd");
        },
        Technology::OS => {
            reveal_strlit("OS");
            reveal_strlit("os");
        },
        Technology::PHP => {
            reveal_strlit("PHP");
            reveal_strlit("php");
        },
        Technology::PhpMyAdmin => {
            reveal_strlit("phpMyAdmin");
            reveal_strlit("phpmyadmin");
        },
        Technology::WordPress => {
            reveal_strlit("WordPress");
            reveal_strlit("wordpress");
        },
        Technology::Drupal => {
            reveal_strlit("Drupal");
            reveal_strlit("drupal");
        },
        Technology::Typo3 => {
            reveal_strlit("TYPO3");
            reveal_strlit("typo3");
        },
        Technology::Tomcat => {
            reveal_strlit("Tomcat");
            reveal_strlit("tomcat");
        },
        Technology::Nginx => {
            reveal_strlit("Nginx");
            reveal_strlit("nginx");
        },
        Technology::OpenSSL => {
            reveal_strlit("OpenSSL");
            reveal_strlit("openssl");
        },
        Technology::JQuery => {
            reveal_strlit("jQuery");
            reveal_strlit("jquery");
        },
        Technology::Handlebars => {
            reveal_strlit("Handlebars");
            reveal_strlit("handlebars");
        },
        Technology::Lodash => {
            reveal_strlit("Lodash");
            reveal_strlit("lodash");
        },
        Technology::AngularJS => {
            reveal_strlit("AngularJS");
            reveal_strlit("angularjs");
        },
        Technology::Gsap => {
            reveal_strlit("GSAP");
            reveal_strlit("gsap");
        },
        Technology::Bootstrap => {
            reveal_strlit("Bootstrap");
            reveal_strlit("bootstrap");
        },
        Technology::Angular => {
            reveal_strlit("Angular");
            reveal_strlit("angular");
        },
        Technology::Plesk => {
            reveal_strlit("Plesk");
            reveal_strlit("plesk");
        },
        Technology::CKEditor => {
            reveal_strlit("CKEditor");
            reveal_strlit("ckeditor");
        },
        Technology::Highcharts => {
            reveal_strlit("Highcharts");
            reveal_strlit("highcharts");
        },
        Technology::WPPYoastSEO => {
            reveal_strlit("YoastSEO");
            reveal_strlit("yoastseo");
        },
        Technology::WPPJSComposer => {
            reveal_strlit("JSComposer");
            reveal_strlit("jscomposer");
        },
        Technology::Melis => {
            reveal_strlit("Melis");
            reveal_strlit("melis");
        },
        Technology::WPPElementor => {
            reveal_strlit("Elementor");
            reveal_strlit("elementor");
        },
        Technology::WPPGTranslate => {
            reveal_strlit("GTranslate");
            reveal_strlit("gtranslate");
        },
        Technology::WPPWooCommerce => {
            reveal_strlit("WooCommerce");
            reveal_strlit("woocommerce");
        },
        Technology::WPTDivi => {
            reveal_strlit("Divi");
            reveal_strlit("divi");
        },
        Technology::WPPClassicEditor => {
            reveal_strlit("ClassicEditor");
            reveal_strlit("classiceditor");
        },
        Technology::WPPAkismet => {
            reveal_strlit("Akismet");
            reveal_strlit("akismet");
        },
        Technology::WPPWpformsLite => {
            reveal_strlit("WpFormsLite");
            reveal_strlit("wpformslite");
        },
        Technology::WPPAllInOneWpMigration => {
            reveal_strlit("AllInOneWpMigration");
            reveal_strlit("allinonewpmigration");
        },
        Technology::WPPReallySimpleSSL => {
            reveal_strlit("ReallySimpleSSL");
            reveal_strlit("reallysimplessl");
        },
        Technology::WPPJetpack => {
            reveal_strlit("Jetpack");
            reveal_strlit("jetpack");
        },
        Technology::WPPLiteSpeedCache => {
            reveal_strlit("LiteSpeedCache");
            reveal_strlit("litespeedcache");
        },
        Technology::WPPAllInOneSEO => {
            reveal_strlit("AllInOneSEO");
            reveal_strlit("allinoneseo");
        },
        Technology::WPPWordfence => {
            reveal_strlit("Wordfence");
            reveal_strlit("wordfence");
        },
        Technology::WPPWpMailSmtp => {
            reveal_strlit("WpMailSmtp");
            reveal_strlit("wpmailsmtp");
        },
        Technology::WPPMc4wp => {
            reveal_strlit("Mc4wp");
            reveal_strlit("mc4wp");
        },
        Technology::WPPSpectra => {
            reveal_strlit("Spectra");
            reveal_strlit("spectra");
        },
        Technology::SquirrelMail => {
            reveal_strlit("SquirrelMail");
            reveal_strlit("squirrelmail");
        },
        Technology::PhoneSystem3CX => {
            reveal_strlit("PhoneSystem3CX");
            reveal_strlit("phonesystem3cx");
        },
        Technology::Prestashop => {
            reveal_strlit("Prestashop");
            reveal_strlit("prestashop");
        },
        Technology::Jira => {
            reveal_strlit("Jira");
            reveal_strlit("jira");
        },
        Technology::Twisted => {
            reveal_strlit("Twisted");
            reveal_strlit("twisted");
        },
        Technology::TwistedWeb => {
            reveal_strlit("TwistedWeb");
            reveal_strlit("twistedweb");
        },
        Technology::Symfony => {
            reveal_strlit("Symfony");
            reveal_strlit("symfony");
        },
        Technology::TinyMCE => {
            reveal_strlit("TinyMCE");
            reveal_strlit("tinymce");
        },
        Technology::JQueryUI => {
            reveal_strlit("jQueryUI");
            reveal_strlit("jqueryui");
        },
        Technology::WPPLayerSlider => {
            reveal_strlit("LayerSlider");
            reveal_strlit("layerslider");
        },
        Technology::WPPWpMembers => {
            reveal_strlit("WpMembers");
            reveal_strlit("wpmembers");
        },
        Technology::WPPForminator => {
            reveal_strlit("Forminator");
            reveal_strlit("forminator");
        },
        Technology::Horde => {
            reveal_strlit("Horde");
            reveal_strlit("horde");
        },
        Technology::Knockout => {
            reveal_strlit("Knockout");
            reveal_strlit("knockout");
        },
        Technology::WPPWpSuperCache => {
            reveal_strlit("WpSuperCache");
            reveal_strlit("wpsupercache");
        },
        Technology::WPPEmailSubscribers => {
            reveal_strlit("EmailSubscribers");
            reveal_strlit("emailsubscribers");
        },
        Technology::WPPBetterSearchReplace => {
            reveal_strlit("BetterSearchReplace");
            reveal_strlit("bettersearchreplace");
        },
        Technology::WPPAdvancedCustomFields => {
            reveal_strlit("AdvancedCustomFields");
            reveal_strlit("advancedcustomfields");
        },
        Technology::WPPHealthCheck => {
            reveal_strlit("HealthCheck");
            reveal_strlit("healthcheck");
        },
        Technology::JQueryMobile => {
            reveal_strlit("jQueryMobile");
            reveal_strlit("jquerymobile");
        },
        _ => {},
    }
}

/// The technologies whose command-line name is also their CPE vendor or
/// their CPE product.
pub open spec fn command_line_name_in_cpe(t: Technology) -> bool {
    t == Technology::Dovecot || t == Technology::Exim || t == Technology::MariaDB || t == Technology::OpenSSH || t == Technology::ProFTPD || t == Technology::PureFTPd || t == Technology::PHP || t == Technology::PhpMyAdmin || t == Technology::WordPress || t == Technology::Drupal || t == Technology::Typo3 || t == Technology::Tomcat || t == Technology::Nginx || t == Technology::OpenSSL || t == Technology::JQuery || t == Technology::Handlebars || t == Technology::Lodash || t == Technology::AngularJS || t == Technology::Bootstrap || t == Technology::Angular || t == Technology::Plesk || t == Technology::CKEditor || t == Technology::Highcharts || t == Technology::WPPYoastSEO || t == Technology::WPPGTranslate || t == Technology::WPPWooCommerce || t == Technology::WPTDivi || t == Technology::WPPAkismet || t == Technology::WPPJetpack || t == Technology::WPPSpectra || t == Technology::SquirrelMail || t == Technology::Prestashop || t == Technology::Jira || t == Technology::Twisted || t == Technology::TwistedWeb || t == Technology::Symfony || t == Technology::TinyMCE || t == Technology::JQueryUI || t == Technology::WPPForminator || t == Technology::Horde || t == Technology::Knockout || t == Technology::WPPAdvancedCustomFields
}

/// The CPE of a technology names that technology: for the listed
/// technologies, the command-line name is the CPE vendor or the CPE product.
pub proof fn law_cpe_names_technology(t: Technology)
    ensures
        command_line_name_in_cpe(t) ==> (t.spec_possible_value() == Some(t.spec_cpe_part_vendor_product().1)
            || t.spec_possible_value() == Some(t.spec_cpe_part_vendor_product().2)),
{
}

/// Two technologies never share a CPE vendor and product, unless the CPE
/// product is left empty: the vulnerabilities looked up for one are never
/// those of another.
pub proof fn law_cpe_distinct(t1: Technology, t2: Technology)
    ensures
        t1 != t2 && t1.spec_cpe_part_vendor_product().2.len() > 0 ==> (
            t1.spec_cpe_part_vendor_product().1, t1.spec_cpe_part_vendor_product().2) != (
            t2.spec_cpe_part_vendor_product().1, t2.spec_cpe_part_vendor_product().2),
{
    reveal_strlit("");
    reveal_strlit("3cx");
    reveal_strlit("advanced_custom_fields");
    reveal_strlit("advancedcustomfields");
    reveal_strlit("aioseo");
    reveal_strlit("akismet");
    reveal_strlit("all-in-one_wp_migration");
    reveal_strlit("all_in_one_seo");
    reveal_strlit("alma");
    reveal_strlit("angular");
    reveal_strlit("angularjs");
    reveal_strlit("apache");
    reveal_strlit("atlassian");
    reveal_strlit("automattic");
    reveal_strlit("better_search_replace");
    reveal_strlit("bootstrap");
    reveal_strlit("brainstormforce");
    reveal_strlit("canonical");
    reveal_strlit("centos");
    reveal_strlit("ckeditor");
    reveal_strlit("contact_form_7");
    reveal_strlit("debian");
    reveal_strlit("debian_linux");
    reveal_strlit("divi");
    reveal_strlit("dovecot");
    reveal_strlit("drupal");
    reveal_strlit("elegant_themes");
    reveal_strlit("elementor_addon_elements");
    reveal_strlit("email_subscribers");
    reveal_strlit("exim");
    reveal_strlit("facebook");
    reveal_strlit("fedora");
    reveal_strlit("fedoraproject");
    reveal_strlit("forminator");
    reveal_strlit("freebsd");
    reveal_strlit("getbootstrap");
    reveal_strlit("greensock");
    reveal_strlit("greensock_animation_platform");
    reveal_strlit("groupware");
    reveal_strlit("gtranslate");
    reveal_strlit("handlebars");
    reveal_strlit("handlebarsjs");
    reveal_strlit("health_check_\\&_troubleshooting");
    reveal_strlit("highcharts");
    reveal_strlit("horde");
    reveal_strlit("httpd_server");
    reveal_strlit("icegram");
    reveal_strlit("incsub");
    reveal_strlit("jetpack");
    reveal_strlit("jira");
    reveal_strlit("jquery");
    reveal_strlit("jquery_mobile");
    reveal_strlit("jquery_ui");
    reveal_strlit("jqueryui");
    reveal_strlit("knockout");
    reveal_strlit("knockoutjs");
    reveal_strlit("layslider");
    reveal_strlit("linux");
    reveal_strlit("litespeed_cache");
    reveal_strlit("litespeedtech");
    reveal_strlit("lodash");
    reveal_strlit("mailchimp_for_wordpress");
    reveal_strlit("mailchimp_for_wordpress_project");
    reveal_strlit("mariadb");
    reveal_strlit("meliscms");
    reveal_strlit("melistechnology");
    reveal_strlit("mysql_server");
    reveal_strlit("netbsd");
    reveal_strlit("nginx");
    reveal_strlit("openbsd");
    reveal_strlit("openssh");
    reveal_strlit("openssl");
    reveal_strlit("oracle");
    reveal_strlit("page_builder");
    reveal_strlit("php");
    reveal_strlit("phpmyadmin");
    reveal_strlit("plesk");
    reveal_strlit("prestashop");
    reveal_strlit("proftpd");
    reveal_strlit("proftpd_project");
    reveal_strlit("pure-ftpd");
    reveal_strlit("pureftpd");
    reveal_strlit("react");
    reveal_strlit("really-simple-plugins");
    reveal_strlit("really-simple-ssl");
    reveal_strlit("rocklobster");
    reveal_strlit("sensiolabs");
    reveal_strlit("servmask");
    reveal_strlit("slider_revolution");
    reveal_strlit("spectra");
    reveal_strlit("squirrelmail");
    reveal_strlit("symfony");
    reveal_strlit("themepunch");
    reveal_strlit("tiny");
    reveal_strlit("tinymce");
    reveal_strlit("tomcat");
    reveal_strlit("translate_wordpress_with_gtranslate");
    reveal_strlit("twisted");
    reveal_strlit("twistedmatrix");
    reveal_strlit("twistedweb");
    reveal_strlit("typo3");
    reveal_strlit("ubuntu_linux");
    reveal_strlit("unix");
    reveal_strlit("webtechstreet");
    reveal_strlit("woocommerce");
    reveal_strlit("wordpress");
    reveal_strlit("wp-members");
    reveal_strlit("wp-members_project");
    reveal_strlit("wp_mail_smtp");
    reveal_strlit("wp_super_cache");
    reveal_strlit("wpbakery");
    reveal_strlit("wpengine");
    reveal_strlit("wpforms");
    reveal_strlit("yoast");
    reveal_strlit("yoastseo");
    assert(""@.len() == 0);
    assert("3cx"@.len() == 3);
    assert("advanced_custom_fields"@.len() == 22);
    assert("advancedcustomfields"@.len() == 20);
    assert("aioseo"@.len() == 6);
    assert("akismet"@.len() == 7);
    assert("all-in-one_wp_migration"@.len() == 23);
    assert("all_in_one_seo"@.len() == 14);
    assert("alma"@.len() == 4);
    assert("angular"@.len() == 7);
    assert("angularjs"@.len() == 9);
    assert("apache"@.len() == 6);
    assert("atlassian"@.len() == 9);
    assert("automattic"@.len() == 10);
    assert("better_search_replace"@.len() == 21);
    assert("bootstrap"@.len() == 9);
    assert("brainstormforce"@.len() == 15);
    assert("canonical"@.len() == 9);
    assert("centos"@.len() == 6);
    assert("ckeditor"@.len() == 8);
    assert("contact_form_7"@.len() == 14);
    assert("debian"@.len() == 6);
    assert("debian_linux"@.len() == 12);
    assert("divi"@.len() == 4);
    assert("dovecot"@.len() == 7);
    assert("drupal"@.len() == 6);
    assert("elegant_themes"@.len() == 14);
    assert("elementor_addon_elements"@.len() == 24);
    assert("email_subscribers"@.len() == 17);
    assert("exim"@.len() == 4);
    assert("facebook"@.len() == 8);
    assert("fedora"@.len() == 6);
    assert("fedoraproject"@.len() == 13);
    assert("forminator"@.len() == 10);
    assert("freebsd"@.len() == 7);
    assert("getbootstrap"@.len() == 12);
    assert("greensock"@.len() == 9);
    assert("greensock_animation_platform"@.len() == 28);
    assert("groupware"@.len() == 9);
    assert("gtranslate"@.len() == 10);
    assert("handlebars"@.len() == 10);
    assert("handlebarsjs"@.len() == 12);
    assert("health_check_\\&_troubleshooting"@.len() == 31);
    assert("highcharts"@.len() == 10);
    assert("horde"@.len() == 5);
    assert("httpd_server"@.len() == 12);
    assert("icegram"@.len() == 7);
    assert("incsub"@.len() == 6);
    assert("jetpack"@.len() == 7);
    assert("jira"@.len() == 4);
    assert("jquery"@.len() == 6);
    assert("jquery_mobile"@.len() == 13);
    assert("jquery_ui"@.len() == 9);
    assert("jqueryui"@.len() == 8);
    assert("knockout"@.len() == 8);
    assert("knockoutjs"@.len() == 10);
    assert("layslider"@.len() == 9);
    assert("linux"@.len() == 5);
    assert("litespeed_cache"@.len() == 15);
    assert("litespeedtech"@.len() == 13);
    assert("lodash"@.len() == 6);
    assert("mailchimp_for_wordpress"@.len() == 23);
    assert("mailchimp_for_wordpress_project"@.len() == 31);
    assert("mariadb"@.len() == 7);
    assert("meliscms"@.len() == 8);
    assert("melistechnology"@.len() == 15);
    assert("mysql_server"@.len() == 12);
    assert("netbsd"@.len() == 6);
    assert("nginx"@.len() == 5);
    assert("openbsd"@.len() == 7);
    assert("openssh"@.len() == 7);
    assert("openssl"@.len() == 7);
    assert("oracle"@.len() == 6);
    assert("page_builder"@.len() == 12);
    assert("php"@.len() == 3);
    assert("phpmyadmin"@.len() == 10);
    assert("plesk"@.len() == 5);
    assert("prestashop"@.len() == 10);
    assert("proftpd"@.len() == 7);
    assert("proftpd_project"@.len() == 15);
    assert("pure-ftpd"@.len() == 9);
    assert("pureftpd"@.len() == 8);
    assert("react"@.len() == 5);
    assert("really-simple-plugins"@.len() == 21);
    assert("really-simple-ssl"@.len() == 17);
    assert("rocklobster"@.len() == 11);
    assert("sensiolabs"@.len() == 10);
    assert("servmask"@.len() == 8);
    assert("slider_revolution"@.len() == 17);
    assert("spectra"@.len() == 7);
    assert("squirrelmail"@.len() == 12);
    assert("symfony"@.len() == 7);
    assert("themepunch"@.len() == 10);
    assert("tiny"@.len() == 4);
    assert("tinymce"@.len() == 7);
    assert("tomcat"@.len() == 6);
    assert("translate_wordpress_with_gtranslate"@.len() == 35);
    assert("twisted"@.len() == 7);
    assert("twistedmatrix"@.len() == 13);
    assert("twistedweb"@.len() == 10);
    assert("typo3"@.len() == 5);
    assert("ubuntu_linux"@.len() == 12);
    assert("unix"@.len() == 4);
    assert("webtechstreet"@.len() == 13);
    assert("woocommerce"@.len() == 11);
    assert("wordpress"@.len() == 9);
    assert("wp-members"@.len() == 10);
    assert("wp-members_project"@.len() == 18);
    assert("wp_mail_smtp"@.len() == 12);
    assert("wp_super_cache"@.len() == 14);
    assert("wpbakery"@.len() == 8);
    assert("wpengine"@.len() == 8);
    assert("wpforms"@.len() == 7);
    assert("yoast"@.len() == 5);
    assert("yoastseo"@.len() == 8);
    assert("akismet"@[0] != "jetpack"@[0]);
    assert("akismet"@[0] != "spectra"@[0]);
    assert("akismet"@[0] != "symfony"@[0]);
    assert("akismet"@[0] != "tinymce"@[0]);
    assert("akismet"@[0] != "twisted"@[0]);
    assert("akismet"@[0] != "wpforms"@[0]);
    assert("all-in-one_wp_migration"@[0] != "mailchimp_for_wordpress"@[0]);
    assert("all_in_one_seo"@[0] != "wp_super_cache"@[0]);
    assert("angular"@[0] != "jetpack"@[0]);
    assert("angular"@[0] != "spectra"@[0]);
    assert("angular"@[0] != "symfony"@[0]);
    assert("angular"@[0] != "tinymce"@[0]);
    assert("angular"@[0] != "twisted"@[0]);
    assert("angular"@[0] != "wpforms"@[0]);
    assert("angular"@[1] != "akismet"@[1]);
    assert("bootstrap"@[0] != "groupware"@[0]);
    assert("bootstrap"@[0] != "jquery_ui"@[0]);
    assert("bootstrap"@[0] != "layslider"@[0]);
    assert("centos"@[0] != "drupal"@[0]);
    assert("centos"@[0] != "jquery"@[0]);
    assert("centos"@[0] != "lodash"@[0]);
    assert("centos"@[0] != "netbsd"@[0]);
    assert("centos"@[0] != "tomcat"@[0]);
    assert("ckeditor"@[0] != "knockout"@[0]);
    assert("ckeditor"@[0] != "meliscms"@[0]);
    assert("ckeditor"@[0] != "yoastseo"@[0]);
    assert("contact_form_7"@[0] != "all_in_one_seo"@[0]);
    assert("contact_form_7"@[0] != "wp_super_cache"@[0]);
    assert("debian_linux"@[0] != "httpd_server"@[0]);
    assert("debian_linux"@[0] != "page_builder"@[0]);
    assert("debian_linux"@[0] != "squirrelmail"@[0]);
    assert("debian_linux"@[0] != "wp_mail_smtp"@[0]);
    assert("divi"@[0] != "jira"@[0]);
    assert("dovecot"@[0] != "akismet"@[0]);
    assert("dovecot"@[0] != "angular"@[0]);
    assert("dovecot"@[0] != "freebsd"@[0]);
    assert("dovecot"@[0] != "jetpack"@[0]);
    assert("dovecot"@[0] != "mariadb"@[0]);
    assert("dovecot"@[0] != "openbsd"@[0]);
    assert("dovecot"@[0] != "openssh"@[0]);
    assert("dovecot"@[0] != "openssl"@[0]);
    assert("dovecot"@[0] != "proftpd"@[0]);
    assert("dovecot"@[0] != "spectra"@[0]);
    assert("dovecot"@[0] != "symfony"@[0]);
    assert("dovecot"@[0] != "tinymce"@[0]);
    assert("dovecot"@[0] != "twisted"@[0]);
    assert("dovecot"@[0] != "wpforms"@[0]);
    assert("drupal"@[0] != "jquery"@[0]);
    assert("drupal"@[0] != "lodash"@[0]);
    assert("drupal"@[0] != "tomcat"@[0]);
    assert("exim"@[0] != "divi"@[0]);
    assert("exim"@[0] != "jira"@[0]);
    assert("exim"@[0] != "unix"@[0]);
    assert("fedora"@[0] != "centos"@[0]);
    assert("fedora"@[0] != "drupal"@[0]);
    assert("fedora"@[0] != "jquery"@[0]);
    assert("fedora"@[0] != "lodash"@[0]);
    assert("fedora"@[0] != "netbsd"@[0]);
    assert("fedora"@[0] != "tomcat"@[0]);
    assert("freebsd"@[0] != "akismet"@[0]);
    assert("freebsd"@[0] != "angular"@[0]);
    assert("freebsd"@[0] != "jetpack"@[0]);
    assert("freebsd"@[0] != "openbsd"@[0]);
    assert("freebsd"@[0] != "openssl"@[0]);
    assert("freebsd"@[0] != "spectra"@[0]);
    assert("freebsd"@[0] != "symfony"@[0]);
    assert("freebsd"@[0] != "tinymce"@[0]);
    assert("freebsd"@[0] != "twisted"@[0]);
    assert("freebsd"@[0] != "wpforms"@[0]);
    assert("handlebars"@[0] != "forminator"@[0]);
    assert("handlebars"@[0] != "prestashop"@[0]);
    assert("handlebars"@[0] != "twistedweb"@[0]);
    assert("handlebars"@[0] != "wp-members"@[0]);
    assert("handlebars"@[1] != "highcharts"@[1]);
    assert("highcharts"@[0] != "forminator"@[0]);
    assert("highcharts"@[0] != "prestashop"@[0]);
    assert("highcharts"@[0] != "twistedweb"@[0]);
    assert("highcharts"@[0] != "wp-members"@[0]);
    assert("httpd_server"@[0] != "page_builder"@[0]);
    assert("httpd_server"@[0] != "squirrelmail"@[0]);
    assert("httpd_server"@[0] != "wp_mail_smtp"@[0]);
    assert("jetpack"@[0] != "spectra"@[0]);
    assert("jetpack"@[0] != "symfony"@[0]);
    assert("jetpack"@[0] != "tinymce"@[0]);
    assert("jetpack"@[0] != "twisted"@[0]);
    assert("jquery"@[0] != "lodash"@[0]);
    assert("jquery_ui"@[0] != "groupware"@[0]);
    assert("jquery_ui"@[0] != "layslider"@[0]);
    assert("layslider"@[0] != "groupware"@[0]);
    assert("linux"@[0] != "nginx"@[0]);
    assert("linux"@[0] != "plesk"@[0]);
    assert("linux"@[0] != "react"@[0]);
    assert("linux"@[0] != "typo3"@[0]);
    assert("mariadb"@[0] != "akismet"@[0]);
    assert("mariadb"@[0] != "angular"@[0]);
    assert("mariadb"@[0] != "freebsd"@[0]);
    assert("mariadb"@[0] != "jetpack"@[0]);
    assert("mariadb"@[0] != "openbsd"@[0]);
    assert("mariadb"@[0] != "openssh"@[0]);
    assert("mariadb"@[0] != "openssl"@[0]);
    assert("mariadb"@[0] != "proftpd"@[0]);
    assert("mariadb"@[0] != "spectra"@[0]);
    assert("mariadb"@[0] != "symfony"@[0]);
    assert("mariadb"@[0] != "tinymce"@[0]);
    assert("mariadb"@[0] != "twisted"@[0]);
    assert("mariadb"@[0] != "wpforms"@[0]);
    assert("meliscms"@[0] != "knockout"@[0]);
    assert("mysql_server"@[0] != "debian_linux"@[0]);
    assert("mysql_server"@[0] != "httpd_server"@[0]);
    assert("mysql_server"@[0] != "page_builder"@[0]);
    assert("mysql_server"@[0] != "squirrelmail"@[0]);
    assert("mysql_server"@[0] != "ubuntu_linux"@[0]);
    assert("mysql_server"@[0] != "wp_mail_smtp"@[0]);
    assert("netbsd"@[0] != "drupal"@[0]);
    assert("netbsd"@[0] != "jquery"@[0]);
    assert("netbsd"@[0] != "lodash"@[0]);
    assert("netbsd"@[0] != "tomcat"@[0]);
    assert("nginx"@[0] != "plesk"@[0]);
    assert("nginx"@[0] != "react"@[0]);
    assert("openbsd"@[0] != "akismet"@[0]);
    assert("openbsd"@[0] != "angular"@[0]);
    assert("openbsd"@[0] != "jetpack"@[0]);
    assert("openbsd"@[0] != "spectra"@[0]);
    assert("openbsd"@[0] != "symfony"@[0]);
    assert("openbsd"@[0] != "tinymce"@[0]);
    assert("openbsd"@[0] != "twisted"@[0]);
    assert("openbsd"@[0] != "wpforms"@[0]);
    assert("openbsd"@[4] != "openssl"@[4]);
    assert("openssh"@[0] != "akismet"@[0]);
    assert("openssh"@[0] != "angular"@[0]);
    assert("openssh"@[0] != "freebsd"@[0]);
    assert("openssh"@[0] != "jetpack"@[0]);
    assert("openssh"@[0] != "proftpd"@[0]);
    assert("openssh"@[0] != "spectra"@[0]);
    assert("openssh"@[0] != "symfony"@[0]);
    assert("openssh"@[0] != "tinymce"@[0]);
    assert("openssh"@[0] != "twisted"@[0]);
    assert("openssh"@[0] != "wpforms"@[0]);
    assert("openssh"@[4] != "openbsd"@[4]);
    assert("openssh"@[6] != "openssl"@[6]);
    assert("openssl"@[0] != "akismet"@[0]);
    assert("openssl"@[0] != "angular"@[0]);
    assert("openssl"@[0] != "jetpack"@[0]);
    assert("openssl"@[0] != "spectra"@[0]);
    assert("openssl"@[0] != "symfony"@[0]);
    assert("openssl"@[0] != "tinymce"@[0]);
    assert("openssl"@[0] != "twisted"@[0]);
    assert("openssl"@[0] != "wpforms"@[0]);
    assert("page_builder"@[0] != "squirrelmail"@[0]);
    assert("page_builder"@[0] != "wp_mail_smtp"@[0]);
    assert("php"@[0] != "3cx"@[0]);
    assert("phpmyadmin"@[0] != "forminator"@[0]);
    assert("phpmyadmin"@[0] != "handlebars"@[0]);
    assert("phpmyadmin"@[0] != "highcharts"@[0]);
    assert("phpmyadmin"@[0] != "twistedweb"@[0]);
    assert("phpmyadmin"@[0] != "wp-members"@[0]);
    assert("phpmyadmin"@[1] != "prestashop"@[1]);
    assert("prestashop"@[0] != "forminator"@[0]);
    assert("prestashop"@[0] != "twistedweb"@[0]);
    assert("prestashop"@[0] != "wp-members"@[0]);
    assert("proftpd"@[0] != "akismet"@[0]);
    assert("proftpd"@[0] != "angular"@[0]);
    assert("proftpd"@[0] != "freebsd"@[0]);
    assert("proftpd"@[0] != "jetpack"@[0]);
    assert("proftpd"@[0] != "openbsd"@[0]);
    assert("proftpd"@[0] != "openssl"@[0]);
    assert("proftpd"@[0] != "spectra"@[0]);
    assert("proftpd"@[0] != "symfony"@[0]);
    assert("proftpd"@[0] != "tinymce"@[0]);
    assert("proftpd"@[0] != "twisted"@[0]);
    assert("proftpd"@[0] != "wpforms"@[0]);
    assert("pure-ftpd"@[0] != "bootstrap"@[0]);
    assert("pure-ftpd"@[0] != "groupware"@[0]);
    assert("pure-ftpd"@[0] != "jquery_ui"@[0]);
    assert("pure-ftpd"@[0] != "layslider"@[0]);
    assert("pure-ftpd"@[0] != "wordpress"@[0]);
    assert("react"@[0] != "plesk"@[0]);
    assert("really-simple-ssl"@[0] != "email_subscribers"@[0]);
    assert("slider_revolution"@[0] != "email_subscribers"@[0]);
    assert("slider_revolution"@[0] != "really-simple-ssl"@[0]);
    assert("spectra"@[0] != "tinymce"@[0]);
    assert("spectra"@[0] != "twisted"@[0]);
    assert("spectra"@[1] != "symfony"@[1]);
    assert("symfony"@[0] != "tinymce"@[0]);
    assert("tomcat"@[0] != "jquery"@[0]);
    assert("tomcat"@[0] != "lodash"@[0]);
    assert("twisted"@[0] != "symfony"@[0]);
    assert("twisted"@[1] != "tinymce"@[1]);
    assert("twistedweb"@[0] != "forminator"@[0]);
    assert("twistedweb"@[0] != "wp-members"@[0]);
    assert("typo3"@[0] != "nginx"@[0]);
    assert("typo3"@[0] != "plesk"@[0]);
    assert("typo3"@[0] != "react"@[0]);
    assert("ubuntu_linux"@[0] != "debian_linux"@[0]);
    assert("ubuntu_linux"@[0] != "httpd_server"@[0]);
    assert("ubuntu_linux"@[0] != "page_builder"@[0]);
    assert("ubuntu_linux"@[0] != "squirrelmail"@[0]);
    assert("ubuntu_linux"@[0] != "wp_mail_smtp"@[0]);
    assert("unix"@[0] != "divi"@[0]);
    assert("unix"@[0] != "jira"@[0]);
    assert("wordpress"@[0] != "bootstrap"@[0]);
    assert("wordpress"@[0] != "groupware"@[0]);
    assert("wordpress"@[0] != "jquery_ui"@[0]);
    assert("wordpress"@[0] != "layslider"@[0]);
    assert("wp-members"@[0] != "forminator"@[0]);
    assert("wp_mail_smtp"@[0] != "squirrelmail"@[0]);
    assert("wpforms"@[0] != "jetpack"@[0]);
    assert("wpforms"@[0] != "spectra"@[0]);
    assert("wpforms"@[0] != "symfony"@[0]);
    assert("wpforms"@[0] != "tinymce"@[0]);
    assert("wpforms"@[0] != "twisted"@[0]);
    assert("yoastseo"@[0] != "knockout"@[0]);
    assert("yoastseo"@[0] != "meliscms"@[0]);
}

/// Whether a technology is a network service recognised by its TCP banner:
/// the mail servers Dovecot and Exim, the database servers MariaDB and
/// MySQL, the SSH server OpenSSH and the FTP servers ProFTPD and PureFTPd.
pub open spec fn is_tcp_service(t: Technology) -> bool {
    t == Technology::Dovecot || t == Technology::Exim || t == Technology::MariaDB || t == Technology::MySQL
        || t == Technology::OpenSSH || t == Technology::ProFTPD || t == Technology::PureFTPd
}

/// The TCP services are scanned over TCP and not over HTTP; the generic
/// OS is scanned over both; every other technology over HTTP only; no
/// technology over UDP.
pub proof fn law_scans_by_kind(t: Technology)
    ensures
        t.spec_scans().contains(ScanType::Tcp) <==> (is_tcp_service(t) || t == Technology::OS),
        t.spec_scans().contains(ScanType::Http) <==> !is_tcp_service(t),
        !t.spec_scans().contains(ScanType::Udp),
{
    assert(t.spec_scans().len() >= 1 && t.spec_scans()[0] == t.spec_scans()[0]);
    if t == Technology::OS {
        assert(t.spec_scans()[0] == ScanType::Tcp);
        assert(t.spec_scans()[1] == ScanType::Http);
    } else {
        assert(t.spec_scans()[0] == t.spec_scans()[0]);
    }
}

/// The web servers Apache httpd, nginx and OpenSSL are looked for at the
/// main URL itself, then at a page that does not exist (whose error page
/// carries the server's signature), at `/phpmyadmin/` and at `/..;/..;/`,
/// each taken from the root of the host of the main URL, without fetching
/// JavaScript.
pub proof fn law_web_server_requests(t: Technology, main_url: Seq<char>)
    requires
        t == Technology::Httpd || t == Technology::Nginx || t == Technology::OpenSSL,
    ensures
        t.spec_url_requests(main_url) == seq![
            (main_url, false),
            (resolve_path(main_url, "/pageNotFoundNotFound"@), false),
            (resolve_path(main_url, "/phpmyadmin/"@), false),
            (resolve_path(main_url, "/..;/..;/"@), false),
        ],
        exists|i: int| 0 <= i < t.spec_url_requests(main_url).len()
            && #[trigger] t.spec_url_requests(main_url)[i] == (resolve_path(main_url, "/pageNotFoundNotFound"@), false),
{
    assert(t.spec_scans().contains(ScanType::Http)) by {
        assert(t.spec_scans()[0] == ScanType::Http);
    }
    assert(t.spec_url_requests(main_url) =~= seq![
        (main_url, false),
        (resolve_path(main_url, "/pageNotFoundNotFound"@), false),
        (resolve_path(main_url, "/phpmyadmin/"@), false),
        (resolve_path(main_url, "/..;/..;/"@), false),
    ]);
    assert(t.spec_url_requests(main_url)[1] == (resolve_path(main_url, "/pageNotFoundNotFound"@), false));
}

/// No technology plans the same request twice.
pub proof fn law_http_plan_without_repeats(t: Technology)
    ensures
        forall|i: int, j: int| 0 <= i < j < t.spec_http_plan().len() ==> t.spec_http_plan()[i] != t.spec_http_plan()[j],
{
    match t {
        Technology::PHP => {
            reveal_strlit("/phpinfo.php");
            assert("/phpinfo.php"@.len() == 12);
            reveal_strlit("/info.php");
            assert("/info.php"@.len() == 9);
            reveal_strlit("phpinfo.php");
            assert("phpinfo.php"@.len() == 11);
            reveal_strlit("info.php");
            assert("info.php"@.len() == 8);
            reveal_strlit("/pageNotFoundNotFound");
            assert("/pageNotFoundNotFound"@.len() == 21);
            reveal_strlit("/phpmyadmin/");
            assert("/phpmyadmin/"@.len() == 12);
            reveal_strlit("_profiler/phpinfo");
            assert("_profiler/phpinfo"@.len() == 17);
            assert("/phpinfo.php"@[4] != "/phpmyadmin/"@[4]);
        },
        Technology::Httpd | Technology::Nginx | Technology::OpenSSL => {
            reveal_strlit("/pageNotFoundNotFound");
            assert("/pageNotFoundNotFound"@.len() == 21);
            reveal_strlit("/phpmyadmin/");
            assert("/phpmyadmin/"@.len() == 12);
            reveal_strlit("/..;/..;/");
            assert("/..;/..;/"@.len() == 9);
        },
        Technology::Tomcat => {
            reveal_strlit("/pageNotFoundNotFound");
            assert("/pageNotFoundNotFound"@.len() == 21);
            reveal_strlit("/..;/..;/");
            assert("/..;/..;/"@.len() == 9);
            reveal_strlit("/..;/status.html");
            assert("/..;/status.html"@.len() == 16);
        },
        Technology::PhpMyAdmin => {
            reveal_strlit("doc/html/index.html");
            assert("doc/html/index.html"@.len() == 19);
            reveal_strlit("/phpmyadmin/doc/html/index.html");
            assert("/phpmyadmin/doc/html/index.html"@.len() == 31);
            reveal_strlit("/mysql/doc/html/index.html");
            assert("/mysql/doc/html/index.html"@.len() == 26);
            reveal_strlit("ChangeLog");
            assert("ChangeLog"@.len() == 9);
            reveal_strlit("/phpmyadmin/ChangeLog");
            assert("/phpmyadmin/ChangeLog"@.len() == 21);
            reveal_strlit("/phpMyAdmin/ChangeLog");
            assert("/phpMyAdmin/ChangeLog"@.len() == 21);
            reveal_strlit("/phpMyAdmin/doc/html/index.html");
            assert("/phpMyAdmin/doc/html/index.html"@.len() == 31);
            assert("/phpmyadmin/doc/html/index.html"@[4] != "/phpMyAdmin/doc/html/index.html"@[4]);
            assert("/phpmyadmin/ChangeLog"@[4] != "/phpMyAdmin/ChangeLog"@[4]);
        },
        Technology::Typo3 => {
            reveal_strlit("typo3/sysext/install/composer.json");
            assert("typo3/sysext/install/composer.json"@.len() == 34);
            reveal_strlit("typo3/sysext/linkvalidator/composer.json");
            assert("typo3/sysext/linkvalidator/composer.json"@.len() == 40);
        },
        Technology::WordPress => {
            reveal_strlit("wp-admin/install.php");
            assert("wp-admin/install.php"@.len() == 20);
            reveal_strlit("wp-login.php");
            assert("wp-login.php"@.len() == 12);
        },
        Technology::WPPYoastSEO => {
            reveal_strlit("/wp-content/plugins/wordpress-seo/readme.txt");
            assert("/wp-content/plugins/wordpress-seo/readme.txt"@.len() == 44);
            reveal_strlit("wp-content/plugins/wordpress-seo/readme.txt");
            assert("wp-content/plugins/wordpress-seo/readme.txt"@.len() == 43);
        },
        Technology::WPPContactForm => {
            reveal_strlit("/wp-content/plugins/contact-form-7/readme.txt");
            assert("/wp-content/plugins/contact-form-7/readme.txt"@.len() == 45);
            reveal_strlit("wp-content/plugins/contact-form-7/readme.txt");
            assert("wp-content/plugins/contact-form-7/readme.txt"@.len() == 44);
        },
        Technology::WPPElementor => {
            reveal_strlit("/wp-content/plugins/elementor/readme.txt");
            assert("/wp-content/plugins/elementor/readme.txt"@.len() == 40);
            reveal_strlit("wp-content/plugins/elementor/readme.txt");
            assert("wp-content/plugins/elementor/readme.txt"@.len() == 39);
        },
        Technology::WPPElementsReadyLite => {
            reveal_strlit("/wp-content/plugins/element-ready-lite/readme.txt");
            assert("/wp-content/plugins/element-ready-lite/readme.txt"@.len() == 49);
            reveal_strlit("wp-content/plugins/element-ready-lite/readme.txt");
            assert("wp-content/plugins/element-ready-lite/readme.txt"@.len() == 48);
        },
        Technology::WPPGTranslate => {
            reveal_strlit("/wp-content/plugins/gtranslate/readme.txt");
            assert("/wp-content/plugins/gtranslate/readme.txt"@.len() == 41);
            reveal_strlit("wp-content/plugins/gtranslate/readme.txt");
            assert("wp-content/plugins/gtranslate/readme.txt"@.len() == 40);
        },
        Technology::WPPClassicEditor => {
            reveal_strlit("/wp-content/plugins/classic-editor/readme.txt");
            assert("/wp-content/plugins/classic-editor/readme.txt"@.len() == 45);
            reveal_strlit("wp-content/plugins/classic-editor/readme.txt");
            assert("wp-content/plugins/classic-editor/readme.txt"@.len() == 44);
        },
        Technology::WPPAkismet => {
            reveal_strlit("/wp-content/plugins/akismet/readme.txt");
            assert("/wp-content/plugins/akismet/readme.txt"@.len() == 38);
            reveal_strlit("wp-content/plugins/akismet/readme.txt");
            assert("wp-content/plugins/akismet/readme.txt"@.len() == 37);
        },
        Technology::WPPWpformsLite => {
            reveal_strlit("/wp-content/plugins/wpforms-lite/readme.txt");
            assert("/wp-content/plugins/wpforms-lite/readme.txt"@.len() == 43);
            reveal_strlit("wp-content/plugins/wpforms-lite/readme.txt");
            assert("wp-content/plugins/wpforms-lite/readme.txt"@.len() == 42);
        },
        Technology::WPPAllInOneWpMigration => {
            reveal_strlit("/wp-content/plugins/all-in-one-wp-migration/readme.txt");
            assert("/wp-content/plugins/all-in-one-wp-migration/readme.txt"@.len() == 54);
            reveal_strlit("wp-content/plugins/all-in-one-wp-migration/readme.txt");
            assert("wp-content/plugins/all-in-one-wp-migration/readme.txt"@.len() == 53);
        },
        Technology::WPPReallySimpleSSL => {
            reveal_strlit("/wp-content/plugins/really-simple-ssl/readme.txt");
            assert("/wp-content/plugins/really-simple-ssl/readme.txt"@.len() == 48);
            reveal_strlit("wp-content/plugins/really-simple-ssl/readme.txt");
            assert("wp-content/plugins/really-simple-ssl/readme.txt"@.len() == 47);
        },
        Technology::WPPJetpack => {
            reveal_strlit("/wp-content/plugins/jetpack/readme.txt");
            assert("/wp-content/plugins/jetpack/readme.txt"@.len() == 38);
            reveal_strlit("wp-content/plugins/jetpack/readme.txt");
            assert("wp-content/plugins/jetpack/readme.txt"@.len() == 37);
        },
        Technology::WPPLiteSpeedCache => {
            reveal_strlit("/wp-content/plugins/litespeed-cache/readme.txt");
            assert("/wp-content/plugins/litespeed-cache/readme.txt"@.len() == 46);
            reveal_strlit("wp-content/plugins/litespeed-cache/readme.txt");
            assert("wp-content/plugins/litespeed-cache/readme.txt"@.len() == 45);
        },
        Technology::WPPAllInOneSEO => {
            reveal_strlit("/wp-content/plugins/all-in-one-seo-pack/readme.txt");
            assert("/wp-content/plugins/all-in-one-seo-pack/readme.txt"@.len() == 50);
            reveal_strlit("wp-content/plugins/all-in-one-seo-pack/readme.txt");
            assert("wp-content/plugins/all-in-one-seo-pack/readme.txt"@.len() == 49);
        },
        Technology::WPPWordfence => {
            reveal_strlit("/wp-content/plugins/wordfence/readme.txt");
            assert("/wp-content/plugins/wordfence/readme.txt"@.len() == 40);
            reveal_strlit("wp-content/plugins/wordfence/readme.txt");
            assert("wp-content/plugins/wordfence/readme.txt"@.len() == 39);
        },
        Technology::WPPWpMailSmtp => {
            reveal_strlit("/wp-content/plugins/wp-mail-smtp/readme.txt");
            assert("/wp-content/plugins/wp-mail-smtp/readme.txt"@.len() == 43);
            reveal_strlit("wp-content/plugins/wp-mail-smtp/readme.txt");
            assert("wp-content/plugins/wp-mail-smtp/readme.txt"@.len() == 42);
        },
        Technology::WPPMc4wp => {
            reveal_strlit("/wp-content/plugins/mailchimp-for-wp/readme.txt");
            assert("/wp-content/plugins/mailchimp-for-wp/readme.txt"@.len() == 47);
            reveal_strlit("wp-content/plugins/mailchimp-for-wp/readme.txt");
            assert("wp-content/plugins/mailchimp-for-wp/readme.txt"@.len() == 46);
        },
        Technology::WPPSpectra => {
            reveal_strlit("/wp-content/plugins/ultimate-addons-for-gutenberg/readme.txt");
            assert("/wp-content/plugins/ultimate-addons-for-gutenberg/readme.txt"@.len() == 60);
            reveal_strlit("wp-content/plugins/ultimate-addons-for-gutenberg/readme.txt");
            assert("wp-content/plugins/ultimate-addons-for-gutenberg/readme.txt"@.len() == 59);
        },
        Technology::WPTDivi => {
            reveal_strlit("/wp-content/themes/Divi/style.css");
            assert("/wp-content/themes/Divi/style.css"@.len() == 33);
            reveal_strlit("wp-content/themes/Divi/style.css");
            assert("wp-content/themes/Divi/style.css"@.len() == 32);
        },
        Technology::SquirrelMail => {
            reveal_strlit("src/login.php");
            assert("src/login.php"@.len() == 13);
            reveal_strlit("/squirrelmail/src/login.php");
            assert("/squirrelmail/src/login.php"@.len() == 27);
        },
        Technology::Symfony => {
            reveal_strlit("/app_dev.php");
            assert("/app_dev.php"@.len() == 12);
        },
        Technology::WPPLayerSlider => {
            reveal_strlit("/wp-content/plugins/LayerSlider/static/layerslider/js/layerslider.kreaturamedia.jquery.js");
            assert("/wp-content/plugins/LayerSlider/static/layerslider/js/layerslider.kreaturamedia.jquery.js"@.len() == 89);
            reveal_strlit("wp-content/plugins/LayerSlider/static/layerslider/js/layerslider.kreaturamedia.jquery.js");
            assert("wp-content/plugins/LayerSlider/static/layerslider/js/layerslider.kreaturamedia.jquery.js"@.len() == 88);
            reveal_strlit("/wp-content/plugins/LayerSlider/static/js/layerslider.kreaturamedia.jquery.js");
            assert("/wp-content/plugins/LayerSlider/static/js/layerslider.kreaturamedia.jquery.js"@.len() == 77);
            reveal_strlit("wp-content/plugins/LayerSlider/static/js/layerslider.kreaturamedia.jquery.js");
            assert("wp-content/plugins/LayerSlider/static/js/layerslider.kreaturamedia.jquery.js"@.len() == 76);
        },
        Technology::WPPWpMembers => {
            reveal_strlit("/wp-content/plugins/wp-members/readme.txt");
            assert("/wp-content/plugins/wp-members/readme.txt"@.len() == 41);
            reveal_strlit("wp-content/plugins/wp-members/readme.txt");
            assert("wp-content/plugins/wp-members/readme.txt"@.len() == 40);
        },
        Technology::WPPForminator => {
            reveal_strlit("/wp-content/plugins/forminator/readme.txt");
            assert("/wp-content/plugins/forminator/readme.txt"@.len() == 41);
            reveal_strlit("wp-content/plugins/forminator/readme.txt");
            assert("wp-content/plugins/forminator/readme.txt"@.len() == 40);
        },
        Technology::Horde => {
            reveal_strlit("/horde/services/help/index.php?module=horde&show=menu");
            assert("/horde/services/help/index.php?module=horde&show=menu"@.len() == 53);
            reveal_strlit("horde/services/help/index.php?module=horde&show=menu");
            assert("horde/services/help/index.php?module=horde&show=menu"@.len() == 52);
        },
        Technology::WPPWpSuperCache => {
            reveal_strlit("/wp-content/plugins/wp-super-cache/readme.txt");
            assert("/wp-content/plugins/wp-super-cache/readme.txt"@.len() == 45);
            reveal_strlit("wp-content/plugins/wp-super-cache/readme.txt");
            assert("wp-content/plugins/wp-super-cache/readme.txt"@.len() == 44);
        },
        Technology::WPPEmailSubscribers => {
            reveal_strlit("/wp-content/plugins/email-subscribers/readme.txt");
            assert("/wp-content/plugins/email-subscribers/readme.txt"@.len() == 48);
            reveal_strlit("wp-content/plugins/email-subscribers/readme.txt");
            assert("wp-content/plugins/email-subscribers/readme.txt"@.len() == 47);
        },
        Technology::WPPBetterSearchReplace => {
            reveal_strlit("/wp-content/plugins/better-search-replace/readme.txt");
            assert("/wp-content/plugins/better-search-replace/readme.txt"@.len() == 52);
            reveal_strlit("wp-content/plugins/better-search-replace/readme.txt");
            assert("wp-content/plugins/better-search-replace/readme.txt"@.len() == 51);
        },
        Technology::WPPAdvancedCustomFields => {
            reveal_strlit("/wp-content/plugins/advanced-custom-fields/readme.txt");
            assert("/wp-content/plugins/advanced-custom-fields/readme.txt"@.len() == 53);
            reveal_strlit("wp-content/plugins/advanced-custom-fields/readme.txt");
            assert("wp-content/plugins/advanced-custom-fields/readme.txt"@.len() == 52);
        },
        Technology::WPPHealthCheck => {
            reveal_strlit("/wp-content/plugins/health-check/readme.txt");
            assert("/wp-content/plugins/health-check/readme.txt"@.len() == 43);
            reveal_strlit("wp-content/plugins/health-check/readme.txt");
            assert("wp-content/plugins/health-check/readme.txt"@.len() == 42);
        },
        _ => {},
    }
}

/// The WordPress plugins recognised from their `readme.txt`.
pub open spec fn is_readme_plugin(t: Technology) -> bool {
    t == Technology::WPPYoastSEO || t == Technology::WPPContactForm || t == Technology::WPPElementor || t == Technology::WPPElementsReadyLite || t == Technology::WPPGTranslate || t == Technology::WPPClassicEditor || t == Technology::WPPAkismet || t == Technology::WPPWpformsLite || t == Technology::WPPAllInOneWpMigration || t == Technology::WPPReallySimpleSSL || t == Technology::WPPJetpack || t == Technology::WPPLiteSpeedCache || t == Technology::WPPAllInOneSEO || t == Technology::WPPWordfence || t == Technology::WPPWpMailSmtp || t == Technology::WPPMc4wp || t == Technology::WPPSpectra || t == Technology::WPPWpMembers || t == Technology::WPPForminator || t == Technology::WPPWpSuperCache || t == Technology::WPPEmailSubscribers || t == Technology::WPPBetterSearchReplace || t == Technology::WPPAdvancedCustomFields || t == Technology::WPPHealthCheck
}

/// A WordPress plugin recognised from its `readme.txt` is looked for at
/// that file under `wp-content/plugins/`, first from the root of the host,
/// then from the directory of the main URL, after at most the main URL
/// itself; JavaScript is not fetched.
pub proof fn law_readme_plugin_requests(t: Technology)
    requires
        is_readme_plugin(t),
    ensures
        ({
            let plan = t.spec_http_plan();
            let n = plan.len();
            &&& n >= 2
            &&& (n == 2 || (n == 3 && plan[0] == (None::<Seq<char>>, false)))
            &&& plan[n - 1].1 == false && plan[n - 2].1 == false
            &&& plan[n - 1].0 matches Some(p) && plan[n - 2].0 == Some("/"@ + p)
                && p.len() >= 30 && p.take(19) == "wp-content/plugins/"@ && p.skip(p.len() - 11) == "/readme.txt"@
        }),
{
    reveal_strlit("/");
    reveal_strlit("wp-content/plugins/");
    reveal_strlit("/readme.txt");
    match t {
        Technology::WPPYoastSEO => {
            reveal_strlit("/wp-content/plugins/wordpress-seo/readme.txt");
            reveal_strlit("wp-content/plugins/wordpress-seo/readme.txt");
            assert("/wp-content/plugins/wordpress-seo/readme.txt"@ =~= "/"@ + "wp-content/plugins/wordpress-seo/readme.txt"@);
            assert("wp-content/plugins/wordpress-seo/readme.txt"@.take(19) =~= "wp-content/plugins/"@);
            assert("wp-content/plugins/wordpress-seo/readme.txt"@.skip("wp-content/plugins/wordpress-seo/readme.txt"@.len() - 11) =~= "/readme.txt"@);
        },
        Technology::WPPContactForm => {
            reveal_strlit("/wp-content/plugins/contact-form-7/readme.txt");
            reveal_strlit("wp-content/plugins/contact-form-7/readme.txt");
            assert("/wp-content/plugins/contact-form-7/readme.txt"@ =~= "/"@ + "wp-content/plugins/contact-form-7/readme.txt"@);
            assert("wp-content/plugins/contact-form-7/readme.txt"@.take(19) =~= "wp-content/plugins/"@);
            assert("wp-content/plugins/contact-form-7/readme.txt"@.skip("wp-content/plugins/contact-form-7/readme.txt"@.len() - 11) =~= "/readme.txt"@);
        },
        Technology::WPPElementor => {
            reveal_strlit("/wp-content/plugins/elementor/readme.txt");
            reveal_strlit("wp-content/plugins/elementor/readme.txt");
            assert("/wp-content/plugins/elementor/readme.txt"@ =~= "/"@ + "wp-content/plugins/elementor/readme.txt"@);
            assert("wp-content/plugins/elementor/readme.txt"@.take(19) =~= "wp-content/plugins/"@);
            assert("wp-content/plugins/elementor/readme.txt"@.skip("wp-content/plugins/elementor/readme.txt"@.len() - 11) =~= "/readme.txt"@);
        },
        Technology::WPPElementsReadyLite => {
            reveal_strlit("/wp-content/plugins/element-ready-lite/readme.txt");
            reveal_strlit("wp-content/plugins/element-ready-lite/readme.txt");
            assert("/wp-content/plugins/element-ready-lite/readme.txt"@ =~= "/"@ + "wp-content/plugins/element-ready-lite/readme.txt"@);
            assert("wp-content/plugins/element-ready-lite/readme.txt"@.take(19) =~= "wp-content/plugins/"@);
            assert("wp-content/plugins/element-ready-lite/readme.txt"@.skip("wp-content/plugins/element-ready-lite/readme.txt"@.len() - 11) =~= "/readme.txt"@);
        },
        Technology::WPPGTranslate => {
            reveal_strlit("/wp-content/plugins/gtranslate/readme.txt");
            reveal_strlit("wp-content/plugins/gtranslate/readme.txt");
            assert("/wp-content/plugins/gtranslate/readme.txt"@ =~= "/"@ + "wp-content/plugins/gtranslate/readme.txt"@);
            assert("wp-content/plugins/gtranslate/readme.txt"@.take(19) =~= "wp-content/plugins/"@);
            assert("wp-content/plugins/gtranslate/readme.txt"@.skip("wp-content/plugins/gtranslate/readme.txt"@.len() - 11) =~= "/readme.txt"@);
        },
        Technology::WPPClassicEditor => {
            reveal_strlit("/wp-content/plugins/classic-editor/readme.txt");
            reveal_strlit("wp-content/plugins/classic-editor/readme.txt");
            assert("/wp-content/plugins/classic-editor/readme.txt"@ =~= "/"@ + "wp-content/plugins/classic-editor/readme.txt"@);
            assert("wp-content/plugins/classic-editor/readme.txt"@.take(19) =~= "wp-content/plugins/"@);
            assert("wp-content/plugins/classic-editor/readme.txt"@.skip("wp-content/plugins/classic-editor/readme.txt"@.len() - 11) =~= "/readme.txt"@);
        },
        Technology::WPPAkismet => {
            reveal_strlit("/wp-content/plugins/akismet/readme.txt");
            reveal_strlit("wp-content/plugins/akismet/readme.txt");
            assert("/wp-content/plugins/akismet/readme.txt"@ =~= "/"@ + "wp-content/plugins/akismet/readme.txt"@);
            assert("wp-content/plugins/akismet/readme.txt"@.take(19) =~= "wp-content/plugins/"@);
            assert("wp-content/plugins/akismet/readme.txt"@.skip("wp-content/plugins/akismet/readme.txt"@.len() - 11) =~= "/readme.txt"@);
        },
        Technology::WPPWpformsLite => {
            reveal_strlit("/wp-content/plugins/wpforms-lite/readme.txt");
            reveal_strlit("wp-content/plugins/wpforms-lite/readme.txt");
            assert("/wp-content/plugins/wpforms-lite/readme.txt"@ =~= "/"@ + "wp-content/plugins/wpforms-lite/readme.txt"@);
            assert("wp-content/plugins/wpforms-lite/readme.txt"@.take(19) =~= "wp-content/plugins/"@);
            assert("wp-content/plugins/wpforms-lite/readme.txt"@.skip("wp-content/plugins/wpforms-lite/readme.txt"@.len() - 11) =~= "/readme.txt"@);
        },
        Technology::WPPAllInOneWpMigration => {
            reveal_strlit("/wp-content/plugins/all-in-one-wp-migration/readme.txt");
            reveal_strlit("wp-content/plugins/all-in-one-wp-migration/readme.txt");
            assert("/wp-content/plugins/all-in-one-wp-migration/readme.txt"@ =~= "/"@ + "wp-content/plugins/all-in-one-wp-migration/readme.txt"@);
            assert("wp-content/plugins/all-in-one-wp-migration/readme.txt"@.take(19) =~= "wp-content/plugins/"@);
            assert("wp-content/plugins/all-in-one-wp-migration/readme.txt"@.skip("wp-content/plugins/all-in-one-wp-migration/readme.txt"@.len() - 11) =~= "/readme.txt"@);
        },
        Technology::WPPReallySimpleSSL => {
            reveal_strlit("/wp-content/plugins/really-simple-ssl/readme.txt");
            reveal_strlit("wp-content/plugins/really-simple-ssl/readme.txt");
            assert("/wp-content/plugins/really-simple-ssl/readme.txt"@ =~= "/"@ + "wp-content/plugins/really-simple-ssl/readme.txt"@);
            assert("wp-content/plugins/really-simple-ssl/readme.txt"@.take(19) =~= "wp-content/plugins/"@);
            assert("wp-content/plugins/really-simple-ssl/readme.txt"@.skip("wp-content/plugins/really-simple-ssl/readme.txt"@.len() - 11) =~= "/readme.txt"@);
        },
        Technology::WPPJetpack => {
            reveal_strlit("/wp-content/plugins/jetpack/readme.txt");
            reveal_strlit("wp-content/plugins/jetpack/readme.txt");
            assert("/wp-content/plugins/jetpack/readme.txt"@ =~= "/"@ + "wp-content/plugins/jetpack/readme.txt"@);
            assert("wp-content/plugins/jetpack/readme.txt"@.take(19) =~= "wp-content/plugins/"@);
            assert("wp-content/plugins/jetpack/readme.txt"@.skip("wp-content/plugins/jetpack/readme.txt"@.len() - 11) =~= "/readme.txt"@);
        },
        Technology::WPPLiteSpeedCache => {
            reveal_strlit("/wp-content/plugins/litespeed-cache/readme.txt");
            reveal_strlit("wp-content/plugins/litespeed-cache/readme.txt");
            assert("/wp-content/plugins/litespeed-cache/readme.txt"@ =~= "/"@ + "wp-content/plugins/litespeed-cache/readme.txt"@);
            assert("wp-content/plugins/litespeed-cache/readme.txt"@.take(19) =~= "wp-content/plugins/"@);
            assert("wp-content/plugins/litespeed-cache/readme.txt"@.skip("wp-content/plugins/litespeed-cache/readme.txt"@.len() - 11) =~= "/readme.txt"@);
        },
        Technology::WPPAllInOneSEO => {
            reveal_strlit("/wp-content/plugins/all-in-one-seo-pack/readme.txt");
            reveal_strlit("wp-content/plugins/all-in-one-seo-pack/readme.txt");
            assert("/wp-content/plugins/all-in-one-seo-pack/readme.txt"@ =~= "/"@ + "wp-content/plugins/all-in-one-seo-pack/readme.txt"@);
            assert("wp-content/plugins/all-in-one-seo-pack/readme.txt"@.take(19) =~= "wp-content/plugins/"@);
            assert("wp-content/plugins/all-in-one-seo-pack/readme.txt"@.skip("wp-content/plugins/all-in-one-seo-pack/readme.txt"@.len() - 11) =~= "/readme.txt"@);
        },
        Technology::WPPWordfence => {
            reveal_strlit("/wp-content/plugins/wordfence/readme.txt");
            reveal_strlit("wp-content/plugins/wordfence/readme.txt");
            assert("/wp-content/plugins/wordfence/readme.txt"@ =~= "/"@ + "wp-content/plugins/wordfence/readme.txt"@);
            assert("wp-content/plugins/wordfence/readme.txt"@.take(19) =~= "wp-content/plugins/"@);
            assert("wp-content/plugins/wordfence/readme.txt"@.skip("wp-content/plugins/wordfence/readme.txt"@.len() - 11) =~= "/readme.txt"@);
        },
        Technology::WPPWpMailSmtp => {
            reveal_strlit("/wp-content/plugins/wp-mail-smtp/readme.txt");
            reveal_strlit("wp-content/plugins/wp-mail-smtp/readme.txt");
            assert("/wp-content/plugins/wp-mail-smtp/readme.txt"@ =~= "/"@ + "wp-content/plugins/wp-mail-smtp/readme.txt"@);
            assert("wp-content/plugins/wp-mail-smtp/readme.txt"@.take(19) =~= "wp-content/plugins/"@);
            assert("wp-content/plugins/wp-mail-smtp/readme.txt"@.skip("wp-content/plugins/wp-mail-smtp/readme.txt"@.len() - 11) =~= "/readme.txt"@);
        },
        Technology::WPPMc4wp => {
            reveal_strlit("/wp-content/plugins/mailchimp-for-wp/readme.txt");
            reveal_strlit("wp-content/plugins/mailchimp-for-wp/readme.txt");
            assert("/wp-content/plugins/mailchimp-for-wp/readme.txt"@ =~= "/"@ + "wp-content/plugins/mailchimp-for-wp/readme.txt"@);
            assert("wp-content/plugins/mailchimp-for-wp/readme.txt"@.take(19) =~= "wp-content/plugins/"@);
            assert("wp-content/plugins/mailchimp-for-wp/readme.txt"@.skip("wp-content/plugins/mailchimp-for-wp/readme.txt"@.len() - 11) =~= "/readme.txt"@);
        },
        Technology::WPPSpectra => {
            reveal_strlit("/wp-content/plugins/ultimate-addons-for-gutenberg/readme.txt");
            reveal_strlit("wp-content/plugins/ultimate-addons-for-gutenberg/readme.txt");
            assert("/wp-content/plugins/ultimate-addons-for-gutenberg/readme.txt"@ =~= "/"@ + "wp-content/plugins/ultimate-addons-for-gutenberg/readme.txt"@);
            assert("wp-content/plugins/ultimate-addons-for-gutenberg/readme.txt"@.take(19) =~= "wp-content/plugins/"@);
            assert("wp-content/plugins/ultimate-addons-for-gutenberg/readme.txt"@.skip("wp-content/plugins/ultimate-addons-for-gutenberg/readme.txt"@.len() - 11) =~= "/readme.txt"@);
        },
        Technology::WPPWpMembers => {
            reveal_strlit("/wp-content/plugins/wp-members/readme.txt");
            reveal_strlit("wp-content/plugins/wp-members/readme.txt");
            assert("/wp-content/plugins/wp-members/readme.txt"@ =~= "/"@ + "wp-content/plugins/wp-members/readme.txt"@);
            assert("wp-content/plugins/wp-members/readme.txt"@.take(19) =~= "wp-content/plugins/"@);
            assert("wp-content/plugins/wp-members/readme.txt"@.skip("wp-content/plugins/wp-members/readme.txt"@.len() - 11) =~= "/readme.txt"@);
        },
        Technology::WPPForminator => {
            reveal_strlit("/wp-content/plugins/forminator/readme.txt");
            reveal_strlit("wp-content/plugins/forminator/readme.txt");
            assert("/wp-content/plugins/forminator/readme.txt"@ =~= "/"@ + "wp-content/plugins/forminator/readme.txt"@);
            assert("wp-content/plugins/forminator/readme.txt"@.take(19) =~= "wp-content/plugins/"@);
            assert("wp-content/plugins/forminator/readme.txt"@.skip("wp-content/plugins/forminator/readme.txt"@.len() - 11) =~= "/readme.txt"@);
        },
        Technology::WPPWpSuperCache => {
            reveal_strlit("/wp-content/plugins/wp-super-cache/readme.txt");
            reveal_strlit("wp-content/plugins/wp-super-cache/readme.txt");
            assert("/wp-content/plugins/wp-super-cache/readme.txt"@ =~= "/"@ + "wp-content/plugins/wp-super-cache/readme.txt"@);
            assert("wp-content/plugins/wp-super-cache/readme.txt"@.take(19) =~= "wp-content/plugins/"@);
            assert("wp-content/plugins/wp-super-cache/readme.txt"@.skip("wp-content/plugins/wp-super-cache/readme.txt"@.len() - 11) =~= "/readme.txt"@);
        },
        Technology::WPPEmailSubscribers => {
            reveal_strlit("/wp-content/plugins/email-subscribers/readme.txt");
            reveal_strlit("wp-content/plugins/email-subscribers/readme.txt");
            assert("/wp-content/plugins/email-subscribers/readme.txt"@ =~= "/"@ + "wp-content/plugins/email-subscribers/readme.txt"@);
            assert("wp-content/plugins/email-subscribers/readme.txt"@.take(19) =~= "wp-content/plugins/"@);
            assert("wp-content/plugins/email-subscribers/readme.txt"@.skip("wp-content/plugins/email-subscribers/readme.txt"@.len() - 11) =~= "/readme.txt"@);
        },
        Technology::WPPBetterSearchReplace => {
            reveal_strlit("/wp-content/plugins/better-search-replace/readme.txt");
            reveal_strlit("wp-content/plugins/better-search-replace/readme.txt");
            assert("/wp-content/plugins/better-search-replace/readme.txt"@ =~= "/"@ + "wp-content/plugins/better-search-replace/readme.txt"@);
            assert("wp-content/plugins/better-search-replace/readme.txt"@.take(19) =~= "wp-content/plugins/"@);
            assert("wp-content/plugins/better-search-replace/readme.txt"@.skip("wp-content/plugins/better-search-replace/readme.txt"@.len() - 11) =~= "/readme.txt"@);
        },
        Technology::WPPAdvancedCustomFields => {
            reveal_strlit("/wp-content/plugins/advanced-custom-fields/readme.txt");
            reveal_strlit("wp-content/plugins/advanced-custom-fields/readme.txt");
            assert("/wp-content/plugins/advanced-custom-fields/readme.txt"@ =~= "/"@ + "wp-content/plugins/advanced-custom-fields/readme.txt"@);
            assert("wp-content/plugins/advanced-custom-fields/readme.txt"@.take(19) =~= "wp-content/plugins/"@);
            assert("wp-content/plugins/advanced-custom-fields/readme.txt"@.skip("wp-content/plugins/advanced-custom-fields/readme.txt"@.len() - 11) =~= "/readme.txt"@);
        },
        Technology::WPPHealthCheck => {
            reveal_strlit("/wp-content/plugins/health-check/readme.txt");
            reveal_strlit("wp-content/plugins/health-check/readme.txt");
            assert("/wp-content/plugins/health-check/readme.txt"@ =~= "/"@ + "wp-content/plugins/health-check/readme.txt"@);
            assert("wp-content/plugins/health-check/readme.txt"@.take(19) =~= "wp-content/plugins/"@);
            assert("wp-content/plugins/health-check/readme.txt"@.skip("wp-content/plugins/health-check/readme.txt"@.len() - 11) =~= "/readme.txt"@);
        },
        _ => {},
    }
}

/// Whether a technology is a JavaScript library.
pub open spec fn is_javascript_library(t: Technology) -> bool {
    t == Technology::JQuery || t == Technology::ReactJS || t == Technology::Handlebars || t == Technology::Lodash
        || t == Technology::AngularJS || t == Technology::Gsap || t == Technology::Bootstrap
        || t == Technology::Angular || t == Technology::CKEditor || t == Technology::Highcharts
        || t == Technology::TinyMCE || t == Technology::JQueryUI || t == Technology::Knockout
        || t == Technology::JQueryMobile
}

/// A JavaScript library is looked for in the main page alone, together
/// with the JavaScript files it references.
pub proof fn law_javascript_library_requests(t: Technology, main_url: Seq<char>)
    requires
        is_javascript_library(t),
    ensures
        t.spec_url_requests(main_url) == seq![(main_url, true)],
{
    assert(t.spec_scans().contains(ScanType::Http)) by {
        assert(t.spec_scans()[0] == ScanType::Http);
    }
    assert(t.spec_url_requests(main_url) =~= seq![(main_url, true)]);
}

/// The display names that the command-line names do not pin down still
/// name their product: the specific operating systems and React are
/// displayed under the start of their CPE product, Oracle Linux and
/// AlmaLinux under their CPE vendor and product joined, and Apache httpd
/// under its CPE vendor joined to its command-line name; letters are
/// compared ignoring case.
pub proof fn law_display_name_matches_cpe(t: Technology)
    ensures
        (t == Technology::Ubuntu || t == Technology::Debian || t == Technology::CentOS || t == Technology::Fedora || t == Technology::Unix || t == Technology::FreeBSD || t == Technology::OpenBSD || t == Technology::NetBSD || t == Technology::ReactJS) ==> {
            let d = t.spec_display_name();
            let product = t.spec_cpe_part_vendor_product().2;
            d.len() <= product.len() && crate::models::reqres::names_equal_ignoring_case(d, product.take(d.len() as int))
        },
        (t == Technology::OracleLinux || t == Technology::AlmaLinux) ==> crate::models::reqres::names_equal_ignoring_case(
            t.spec_display_name(),
            t.spec_cpe_part_vendor_product().1 + t.spec_cpe_part_vendor_product().2,
        ),
        t == Technology::Httpd ==> (t.spec_possible_value() matches Some(n)
            && crate::models::reqres::names_equal_ignoring_case(
            t.spec_display_name(),
            t.spec_cpe_part_vendor_product().1 + n,
        )),
{
    match t {
        Technology::Ubuntu => {
            reveal_strlit("Ubuntu");
            reveal_strlit("ubuntu_linux");
        },
        Technology::Debian => {
            reveal_strlit("Debian");
            reveal_strlit("debian_linux");
        },
        Technology::CentOS => {
            reveal_strlit("CentOS");
            reveal_strlit("centos");
        },
        Technology::Fedora => {
            reveal_strlit("Fedora");
            reveal_strlit("fedora");
        },
        Technology::Unix => {
            reveal_strlit("Unix");
            reveal_strlit("unix");
        },
        Technology::FreeBSD => {
            reveal_strlit("FreeBSD");
            reveal_strlit("freebsd");
        },
        Technology::OpenBSD => {
            reveal_strlit("OpenBSD");
            reveal_strlit("openbsd");
        },
        Technology::NetBSD => {
            reveal_strlit("NetBSD");
            reveal_strlit("netbsd");
        },
        Technology::ReactJS => {
            reveal_strlit("React");
            reveal_strlit("react");
        },
        Technology::OracleLinux => {
            reveal_strlit("OracleLinux");
            reveal_strlit("oracle");
            reveal_strlit("linux");
            reveal_strlit("oraclelinux");
            assert("oraclelinux"@.len() == 11);
            assert(("oracle"@ + "linux"@) =~= "oraclelinux"@);
        },
        Technology::AlmaLinux => {
            reveal_strlit("AlmaLinux");
            reveal_strlit("alma");
            reveal_strlit("linux");
            reveal_strlit("almalinux");
            assert("almalinux"@.len() == 9);
            assert(("alma"@ + "linux"@) =~= "almalinux"@);
        },
        Technology::Httpd => {
            reveal_strlit("Apachehttpd");
            reveal_strlit("apache");
            reveal_strlit("httpd");
        },
        _ => {},
    }
}

} // verus!
