//! What this library assumes of the curl crate.
use vstd::prelude::*;

verus! {

/// curl's easy handle; the builder only carries it.
#[verifier::external_type_specification]
#[verifier::external_body]
pub struct ExEasy(curl::easy::Easy);

/// curl's error value, which wraps a libcurl result code.
#[verifier::external_type_specification]
#[verifier::external_body]
pub struct ExCurlError(curl::Error);

/// The error a write callback gives to stop a transfer.
#[verifier::external_type_specification]
#[verifier::external_body]
pub struct ExWriteError(curl::easy::WriteError);

/// The error a read callback gives to stop a transfer.
#[verifier::external_type_specification]
#[verifier::external_body]
pub struct ExReadError(curl::easy::ReadError);

/// A list of strings, such as request headers, owned by curl.
#[verifier::external_type_specification]
#[verifier::external_body]
pub struct ExList(curl::easy::List);

/// The kind of proxy to connect through.
#[verifier::external_type_specification]
#[verifier::external_body]
pub struct ExProxyType(curl::easy::ProxyType);

/// How a time value conditions a request.
#[verifier::external_type_specification]
#[verifier::external_body]
pub struct ExTimeCondition(curl::easy::TimeCondition);

/// Which IP versions names may resolve to.
#[verifier::external_type_specification]
#[verifier::external_body]
pub struct ExIpResolve(curl::easy::IpResolve);

/// A version of SSL or TLS to use.
#[verifier::external_type_specification]
#[verifier::external_body]
pub struct ExSslVersion(curl::easy::SslVersion);

/// A transfer in progress on an easy handle, whose callbacks may borrow
/// local data.
#[verifier::external_type_specification]
#[verifier::external_body]
pub struct ExTransfer<'easy, 'data>(curl::easy::Transfer<'easy, 'data>);

/// What a seek callback reports.
#[verifier::external_type_specification]
#[verifier::external_body]
pub struct ExSeekResult(curl::easy::SeekResult);

/// The kind of a debug message.
#[verifier::external_type_specification]
#[verifier::external_body]
pub struct ExInfoType(curl::easy::InfoType);

/// A position to seek to in a stream.
#[verifier::external_type_specification]
#[verifier::external_body]
pub struct ExSeekFrom(std::io::SeekFrom);

/// Whether the handle holds a write callback (set by `Easy::write_function`).
pub uninterp spec fn easy_has_write_callback(easy: curl::easy::Easy) -> bool;

/// Whether the handle holds a read callback (set by `Easy::read_function`).
pub uninterp spec fn easy_has_read_callback(easy: curl::easy::Easy) -> bool;

/// Relies on `curl::easy::Easy::new`: a fresh handle with default options,
/// whose callback slots all start empty. It panics only where libcurl's
/// global initialisation fails or it cannot allocate a handle.
pub assume_specification[ curl::easy::Easy::new ]() -> (r: curl::easy::Easy)
    ensures
        !easy_has_write_callback(r),
        !easy_has_read_callback(r),
;

/// The value last handed to the handle through `Easy::verbose`.
pub uninterp spec fn easy_verbose(easy: curl::easy::Easy) -> bool;

/// Relies on `curl::easy::Easy::verbose`: libcurl takes any value of this switch.
/// On success the handle holds the value; no callback is touched.
pub assume_specification[ curl::easy::Easy::verbose ](
    easy: &mut curl::easy::Easy,
    verbose: bool,
) -> (r: Result<(), curl::Error>)
    ensures
        r is Ok,
        easy_verbose(*final(easy)) == verbose,
        easy_has_write_callback(*final(easy)) == easy_has_write_callback(*old(easy)),
        easy_has_read_callback(*final(easy)) == easy_has_read_callback(*old(easy)),
;

/// The value last handed to the handle through `Easy::show_header`.
pub uninterp spec fn easy_show_header(easy: curl::easy::Easy) -> bool;

/// Relies on `curl::easy::Easy::show_header`: libcurl takes any value of this switch.
/// On success the handle holds the value; no callback is touched.
pub assume_specification[ curl::easy::Easy::show_header ](
    easy: &mut curl::easy::Easy,
    show: bool,
) -> (r: Result<(), curl::Error>)
    ensures
        r is Ok,
        easy_show_header(*final(easy)) == show,
        easy_has_write_callback(*final(easy)) == easy_has_write_callback(*old(easy)),
        easy_has_read_callback(*final(easy)) == easy_has_read_callback(*old(easy)),
;

/// The value last handed to the handle through `Easy::progress`.
pub uninterp spec fn easy_progress(easy: curl::easy::Easy) -> bool;

/// Relies on `curl::easy::Easy::progress`: libcurl takes any value of this switch.
/// On success the handle holds the value; no callback is touched.
pub assume_specification[ curl::easy::Easy::progress ](
    easy: &mut curl::easy::Easy,
    progress: bool,
) -> (r: Result<(), curl::Error>)
    ensures
        r is Ok,
        easy_progress(*final(easy)) == progress,
        easy_has_write_callback(*final(easy)) == easy_has_write_callback(*old(easy)),
        easy_has_read_callback(*final(easy)) == easy_has_read_callback(*old(easy)),
;

/// The value last handed to the handle through `Easy::signal`.
pub uninterp spec fn easy_signal(easy: curl::easy::Easy) -> bool;

/// Relies on `curl::easy::Easy::signal`: libcurl takes any value of this switch.
/// On success the handle holds the value; no callback is touched.
pub assume_specification[ curl::easy::Easy::signal ](
    easy: &mut curl::easy::Easy,
    signal: bool,
) -> (r: Result<(), curl::Error>)
    ensures
        r is Ok,
        easy_signal(*final(easy)) == signal,
        easy_has_write_callback(*final(easy)) == easy_has_write_callback(*old(easy)),
        easy_has_read_callback(*final(easy)) == easy_has_read_callback(*old(easy)),
;

/// The value last handed to the handle through `Easy::wildcard_match`.
pub uninterp spec fn easy_wildcard_match(easy: curl::easy::Easy) -> bool;

/// Relies on `curl::easy::Easy::wildcard_match`: the value is handed to libcurl, whose answer
/// decides the outcome.
/// On success the handle holds the value; no callback is touched.
pub assume_specification[ curl::easy::Easy::wildcard_match ](
    easy: &mut curl::easy::Easy,
    m: bool,
) -> (r: Result<(), curl::Error>)
    ensures
        r is Ok ==> easy_wildcard_match(*final(easy)) == m,
        easy_has_write_callback(*final(easy)) == easy_has_write_callback(*old(easy)),
        easy_has_read_callback(*final(easy)) == easy_has_read_callback(*old(easy)),
;

/// The value last handed to the handle through `Easy::fail_on_error`.
pub uninterp spec fn easy_fail_on_error(easy: curl::easy::Easy) -> bool;

/// Relies on `curl::easy::Easy::fail_on_error`: libcurl takes any value of this switch.
/// On success the handle holds the value; no callback is touched.
pub assume_specification[ curl::easy::Easy::fail_on_error ](
    easy: &mut curl::easy::Easy,
    fail: bool,
) -> (r: Result<(), curl::Error>)
    ensures
        r is Ok,
        easy_fail_on_error(*final(easy)) == fail,
        easy_has_write_callback(*final(easy)) == easy_has_write_callback(*old(easy)),
        easy_has_read_callback(*final(easy)) == easy_has_read_callback(*old(easy)),
;

/// The value last handed to the handle through `Easy::url`.
pub uninterp spec fn easy_url(easy: curl::easy::Easy) -> Seq<char>;

/// Relies on `curl::easy::Easy::url`: the text goes to libcurl as a C string, so one
/// with an interior NUL is refused before libcurl sees it; libcurl takes
/// any other text of at most 8000000 bytes, which 2000000 characters cannot exceed.
/// On success the handle holds the value; no callback is touched.
pub assume_specification[ curl::easy::Easy::url ](
    easy: &mut curl::easy::Easy,
    url: &str,
) -> (r: Result<(), curl::Error>)
    ensures
        r is Ok ==> easy_url(*final(easy)) == url@,
        url@.contains('\0') ==> r is Err,
        !url@.contains('\0') && url@.len() <= 2000000 ==> r is Ok,
        easy_has_write_callback(*final(easy)) == easy_has_write_callback(*old(easy)),
        easy_has_read_callback(*final(easy)) == easy_has_read_callback(*old(easy)),
;

/// The value last handed to the handle through `Easy::port`.
pub uninterp spec fn easy_port(easy: curl::easy::Easy) -> u16;

/// Relies on `curl::easy::Easy::port`: the value is handed to libcurl, whose answer
/// decides the outcome.
/// On success the handle holds the value; no callback is touched.
pub assume_specification[ curl::easy::Easy::port ](
    easy: &mut curl::easy::Easy,
    port: u16,
) -> (r: Result<(), curl::Error>)
    ensures
        r is Ok ==> easy_port(*final(easy)) == port,
        easy_has_write_callback(*final(easy)) == easy_has_write_callback(*old(easy)),
        easy_has_read_callback(*final(easy)) == easy_has_read_callback(*old(easy)),
;

/// The value last handed to the handle through `Easy::proxy`.
pub uninterp spec fn easy_proxy(easy: curl::easy::Easy) -> Seq<char>;

/// Relies on `curl::easy::Easy::proxy`: the text goes to libcurl as a C string, so one
/// with an interior NUL is refused before libcurl sees it.
/// On success the handle holds the value; no callback is touched.
pub assume_specification[ curl::easy::Easy::proxy ](
    easy: &mut curl::easy::Easy,
    url: &str,
) -> (r: Result<(), curl::Error>)
    ensures
        r is Ok ==> easy_proxy(*final(easy)) == url@,
        url@.contains('\0') ==> r is Err,
        easy_has_write_callback(*final(easy)) == easy_has_write_callback(*old(easy)),
        easy_has_read_callback(*final(easy)) == easy_has_read_callback(*old(easy)),
;

/// The value last handed to the handle through `Easy::proxy_port`.
pub uninterp spec fn easy_proxy_port(easy: curl::easy::Easy) -> u16;

/// Relies on `curl::easy::Easy::proxy_port`: the value is handed to libcurl, whose answer
/// decides the outcome.
/// On success the handle holds the value; no callback is touched.
pub assume_specification[ curl::easy::Easy::proxy_port ](
    easy: &mut curl::easy::Easy,
    port: u16,
) -> (r: Result<(), curl::Error>)
    ensures
        r is Ok ==> easy_proxy_port(*final(easy)) == port,
        easy_has_write_callback(*final(easy)) == easy_has_write_callback(*old(easy)),
        easy_has_read_callback(*final(easy)) == easy_has_read_callback(*old(easy)),
;

/// The value last handed to the handle through `Easy::proxy_type`.
pub uninterp spec fn easy_proxy_type(easy: curl::easy::Easy) -> curl::easy::ProxyType;

/// Relies on `curl::easy::Easy::proxy_type`: the value is handed to libcurl, whose answer
/// decides the outcome.
/// On success the handle holds the value; no callback is touched.
pub assume_specification[ curl::easy::Easy::proxy_type ](
    easy: &mut curl::easy::Easy,
    kind: curl::easy::ProxyType,
) -> (r: Result<(), curl::Error>)
    ensures
        r is Ok ==> easy_proxy_type(*final(easy)) == kind,
        easy_has_write_callback(*final(easy)) == easy_has_write_callback(*old(easy)),
        easy_has_read_callback(*final(easy)) == easy_has_read_callback(*old(easy)),
;

/// The value last handed to the handle through `Easy::noproxy`.
pub uninterp spec fn easy_noproxy(easy: curl::easy::Easy) -> Seq<char>;

/// Relies on `curl::easy::Easy::noproxy`: the text goes to libcurl as a C string, so one
/// with an interior NUL is refused before libcurl sees it.
/// On success the handle holds the value; no callback is touched.
pub assume_specification[ curl::easy::Easy::noproxy ](
    easy: &mut curl::easy::Easy,
    skip: &str,
) -> (r: Result<(), curl::Error>)
    ensures
        r is Ok ==> easy_noproxy(*final(easy)) == skip@,
        skip@.contains('\0') ==> r is Err,
        easy_has_write_callback(*final(easy)) == easy_has_write_callback(*old(easy)),
        easy_has_read_callback(*final(easy)) == easy_has_read_callback(*old(easy)),
;

/// The value last handed to the handle through `Easy::http_proxy_tunnel`.
pub uninterp spec fn easy_http_proxy_tunnel(easy: curl::easy::Easy) -> bool;

/// Relies on `curl::easy::Easy::http_proxy_tunnel`: libcurl takes any value of this switch.
/// On success the handle holds the value; no callback is touched.
pub assume_specification[ curl::easy::Easy::http_proxy_tunnel ](
    easy: &mut curl::easy::Easy,
    tunnel: bool,
) -> (r: Result<(), curl::Error>)
    ensures
        r is Ok,
        easy_http_proxy_tunnel(*final(easy)) == tunnel,
        easy_has_write_callback(*final(easy)) == easy_has_write_callback(*old(easy)),
        easy_has_read_callback(*final(easy)) == easy_has_read_callback(*old(easy)),
;

/// The value last handed to the handle through `Easy::interface`.
pub uninterp spec fn easy_interface(easy: curl::easy::Easy) -> Seq<char>;

/// Relies on `curl::easy::Easy::interface`: the text goes to libcurl as a C string, so one
/// with an interior NUL is refused before libcurl sees it.
/// On success the handle holds the value; no callback is touched.
pub assume_specification[ curl::easy::Easy::interface ](
    easy: &mut curl::easy::Easy,
    interface: &str,
) -> (r: Result<(), curl::Error>)
    ensures
        r is Ok ==> easy_interface(*final(easy)) == interface@,
        interface@.contains('\0') ==> r is Err,
        easy_has_write_callback(*final(easy)) == easy_has_write_callback(*old(easy)),
        easy_has_read_callback(*final(easy)) == easy_has_read_callback(*old(easy)),
;

/// The value last handed to the handle through `Easy::set_local_port`.
pub uninterp spec fn easy_set_local_port(easy: curl::easy::Easy) -> u16;

/// Relies on `curl::easy::Easy::set_local_port`: the value is handed to libcurl, whose answer
/// decides the outcome.
/// On success the handle holds the value; no callback is touched.
pub assume_specification[ curl::easy::Easy::set_local_port ](
    easy: &mut curl::easy::Easy,
    port: u16,
) -> (r: Result<(), curl::Error>)
    ensures
        r is Ok ==> easy_set_local_port(*final(easy)) == port,
        easy_has_write_callback(*final(easy)) == easy_has_write_callback(*old(easy)),
        easy_has_read_callback(*final(easy)) == easy_has_read_callback(*old(easy)),
;

/// The value last handed to the handle through `Easy::local_port_range`.
pub uninterp spec fn easy_local_port_range(easy: curl::easy::Easy) -> u16;

/// Relies on `curl::easy::Easy::local_port_range`: the value is handed to libcurl, whose answer
/// decides the outcome.
/// On success the handle holds the value; no callback is touched.
pub assume_specification[ curl::easy::Easy::local_port_range ](
    easy: &mut curl::easy::Easy,
    range: u16,
) -> (r: Result<(), curl::Error>)
    ensures
        r is Ok ==> easy_local_port_range(*final(easy)) == range,
        easy_has_write_callback(*final(easy)) == easy_has_write_callback(*old(easy)),
        easy_has_read_callback(*final(easy)) == easy_has_read_callback(*old(easy)),
;

/// The value last handed to the handle through `Easy::dns_cache_timeout`.
pub uninterp spec fn easy_dns_cache_timeout(easy: curl::easy::Easy) -> std::time::Duration;

/// Relies on `curl::easy::Easy::dns_cache_timeout`: the value is handed to libcurl, whose answer
/// decides the outcome.
/// On success the handle holds the value; no callback is touched.
pub assume_specification[ curl::easy::Easy::dns_cache_timeout ](
    easy: &mut curl::easy::Easy,
    dur: std::time::Duration,
) -> (r: Result<(), curl::Error>)
    ensures
        r is Ok ==> easy_dns_cache_timeout(*final(easy)) == dur,
        easy_has_write_callback(*final(easy)) == easy_has_write_callback(*old(easy)),
        easy_has_read_callback(*final(easy)) == easy_has_read_callback(*old(easy)),
;

/// The value last handed to the handle through `Easy::buffer_size`.
pub uninterp spec fn easy_buffer_size(easy: curl::easy::Easy) -> usize;

/// Relies on `curl::easy::Easy::buffer_size`: the value is handed to libcurl, whose answer
/// decides the outcome.
/// On success the handle holds the value; no callback is touched.
pub assume_specification[ curl::easy::Easy::buffer_size ](
    easy: &mut curl::easy::Easy,
    size: usize,
) -> (r: Result<(), curl::Error>)
    ensures
        r is Ok ==> easy_buffer_size(*final(easy)) == size,
        easy_has_write_callback(*final(easy)) == easy_has_write_callback(*old(easy)),
        easy_has_read_callback(*final(easy)) == easy_has_read_callback(*old(easy)),
;

/// The value last handed to the handle through `Easy::tcp_nodelay`.
pub uninterp spec fn easy_tcp_nodelay(easy: curl::easy::Easy) -> bool;

/// Relies on `curl::easy::Easy::tcp_nodelay`: libcurl takes any value of this switch.
/// On success the handle holds the value; no callback is touched.
pub assume_specification[ curl::easy::Easy::tcp_nodelay ](
    easy: &mut curl::easy::Easy,
    enable: bool,
) -> (r: Result<(), curl::Error>)
    ensures
        r is Ok,
        easy_tcp_nodelay(*final(easy)) == enable,
        easy_has_write_callback(*final(easy)) == easy_has_write_callback(*old(easy)),
        easy_has_read_callback(*final(easy)) == easy_has_read_callback(*old(easy)),
;

/// The value last handed to the handle through `Easy::address_scope`.
pub uninterp spec fn easy_address_scope(easy: curl::easy::Easy) -> u32;

/// Relies on `curl::easy::Easy::address_scope`: the value is handed to libcurl, whose answer
/// decides the outcome.
/// On success the handle holds the value; no callback is touched.
pub assume_specification[ curl::easy::Easy::address_scope ](
    easy: &mut curl::easy::Easy,
    scope: u32,
) -> (r: Result<(), curl::Error>)
    ensures
        r is Ok ==> easy_address_scope(*final(easy)) == scope,
        easy_has_write_callback(*final(easy)) == easy_has_write_callback(*old(easy)),
        easy_has_read_callback(*final(easy)) == easy_has_read_callback(*old(easy)),
;

/// The value last handed to the handle through `Easy::username`.
pub uninterp spec fn easy_username(easy: curl::easy::Easy) -> Seq<char>;

/// Relies on `curl::easy::Easy::username`: the text goes to libcurl as a C string, so one
/// with an interior NUL is refused before libcurl sees it.
/// On success the handle holds the value; no callback is touched.
pub assume_specification[ curl::easy::Easy::username ](
    easy: &mut curl::easy::Easy,
    user: &str,
) -> (r: Result<(), curl::Error>)
    ensures
        r is Ok ==> easy_username(*final(easy)) == user@,
        user@.contains('\0') ==> r is Err,
        easy_has_write_callback(*final(easy)) == easy_has_write_callback(*old(easy)),
        easy_has_read_callback(*final(easy)) == easy_has_read_callback(*old(easy)),
;

/// The value last handed to the handle through `Easy::password`.
pub uninterp spec fn easy_password(easy: curl::easy::Easy) -> Seq<char>;

/// Relies on `curl::easy::Easy::password`: the text goes to libcurl as a C string, so one
/// with an interior NUL is refused before libcurl sees it.
/// On success the handle holds the value; no callback is touched.
pub assume_specification[ curl::easy::Easy::password ](
    easy: &mut curl::easy::Easy,
    pass: &str,
) -> (r: Result<(), curl::Error>)
    ensures
        r is Ok ==> easy_password(*final(easy)) == pass@,
        pass@.contains('\0') ==> r is Err,
        easy_has_write_callback(*final(easy)) == easy_has_write_callback(*old(easy)),
        easy_has_read_callback(*final(easy)) == easy_has_read_callback(*old(easy)),
;

/// The value last handed to the handle through `Easy::proxy_username`.
pub uninterp spec fn easy_proxy_username(easy: curl::easy::Easy) -> Seq<char>;

/// Relies on `curl::easy::Easy::proxy_username`: the text goes to libcurl as a C string, so one
/// with an interior NUL is refused before libcurl sees it.
/// On success the handle holds the value; no callback is touched.
pub assume_specification[ curl::easy::Easy::proxy_username ](
    easy: &mut curl::easy::Easy,
    user: &str,
) -> (r: Result<(), curl::Error>)
    ensures
        r is Ok ==> easy_proxy_username(*final(easy)) == user@,
        user@.contains('\0') ==> r is Err,
        easy_has_write_callback(*final(easy)) == easy_has_write_callback(*old(easy)),
        easy_has_read_callback(*final(easy)) == easy_has_read_callback(*old(easy)),
;

/// The value last handed to the handle through `Easy::proxy_password`.
pub uninterp spec fn easy_proxy_password(easy: curl::easy::Easy) -> Seq<char>;

/// Relies on `curl::easy::Easy::proxy_password`: the text goes to libcurl as a C string, so one
/// with an interior NUL is refused before libcurl sees it.
/// On success the handle holds the value; no callback is touched.
pub assume_specification[ curl::easy::Easy::proxy_password ](
    easy: &mut curl::easy::Easy,
    pass: &str,
) -> (r: Result<(), curl::Error>)
    ensures
        r is Ok ==> easy_proxy_password(*final(easy)) == pass@,
        pass@.contains('\0') ==> r is Err,
        easy_has_write_callback(*final(easy)) == easy_has_write_callback(*old(easy)),
        easy_has_read_callback(*final(easy)) == easy_has_read_callback(*old(easy)),
;

/// The value last handed to the handle through `Easy::autoreferer`.
pub uninterp spec fn easy_autoreferer(easy: curl::easy::Easy) -> bool;

/// Relies on `curl::easy::Easy::autoreferer`: libcurl takes any value of this switch.
/// On success the handle holds the value; no callback is touched.
pub assume_specification[ curl::easy::Easy::autoreferer ](
    easy: &mut curl::easy::Easy,
    enable: bool,
) -> (r: Result<(), curl::Error>)
    ensures
        r is Ok,
        easy_autoreferer(*final(easy)) == enable,
        easy_has_write_callback(*final(easy)) == easy_has_write_callback(*old(easy)),
        easy_has_read_callback(*final(easy)) == easy_has_read_callback(*old(easy)),
;

/// The value last handed to the handle through `Easy::accept_encoding`.
pub uninterp spec fn easy_accept_encoding(easy: curl::easy::Easy) -> Seq<char>;

/// Relies on `curl::easy::Easy::accept_encoding`: the text goes to libcurl as a C string, so one
/// with an interior NUL is refused before libcurl sees it.
/// On success the handle holds the value; no callback is touched.
pub assume_specification[ curl::easy::Easy::accept_encoding ](
    easy: &mut curl::easy::Easy,
    encoding: &str,
) -> (r: Result<(), curl::Error>)
    ensures
        r is Ok ==> easy_accept_encoding(*final(easy)) == encoding@,
        encoding@.contains('\0') ==> r is Err,
        easy_has_write_callback(*final(easy)) == easy_has_write_callback(*old(easy)),
        easy_has_read_callback(*final(easy)) == easy_has_read_callback(*old(easy)),
;

/// The value last handed to the handle through `Easy::transfer_encoding`.
pub uninterp spec fn easy_transfer_encoding(easy: curl::easy::Easy) -> bool;

/// Relies on `curl::easy::Easy::transfer_encoding`: libcurl takes any value of this switch.
/// On success the handle holds the value; no callback is touched.
pub assume_specification[ curl::easy::Easy::transfer_encoding ](
    easy: &mut curl::easy::Easy,
    enable: bool,
) -> (r: Result<(), curl::Error>)
    ensures
        r is Ok,
        easy_transfer_encoding(*final(easy)) == enable,
        easy_has_write_callback(*final(easy)) == easy_has_write_callback(*old(easy)),
        easy_has_read_callback(*final(easy)) == easy_has_read_callback(*old(easy)),
;

/// The value last handed to the handle through `Easy::follow_location`.
pub uninterp spec fn easy_follow_location(easy: curl::easy::Easy) -> bool;

/// Relies on `curl::easy::Easy::follow_location`: the value is handed to libcurl, whose answer
/// decides the outcome.
/// On success the handle holds the value; no callback is touched.
pub assume_specification[ curl::easy::Easy::follow_location ](
    easy: &mut curl::easy::Easy,
    enable: bool,
) -> (r: Result<(), curl::Error>)
    ensures
        r is Ok ==> easy_follow_location(*final(easy)) == enable,
        easy_has_write_callback(*final(easy)) == easy_has_write_callback(*old(easy)),
        easy_has_read_callback(*final(easy)) == easy_has_read_callback(*old(easy)),
;

/// The value last handed to the handle through `Easy::unrestricted_auth`.
pub uninterp spec fn easy_unrestricted_auth(easy: curl::easy::Easy) -> bool;

/// Relies on `curl::easy::Easy::unrestricted_auth`: libcurl takes any value of this switch.
/// On success the handle holds the value; no callback is touched.
pub assume_specification[ curl::easy::Easy::unrestricted_auth ](
    easy: &mut curl::easy::Easy,
    enable: bool,
) -> (r: Result<(), curl::Error>)
    ensures
        r is Ok,
        easy_unrestricted_auth(*final(easy)) == enable,
        easy_has_write_callback(*final(easy)) == easy_has_write_callback(*old(easy)),
        easy_has_read_callback(*final(easy)) == easy_has_read_callback(*old(easy)),
;

/// The value last handed to the handle through `Easy::max_redirections`.
pub uninterp spec fn easy_max_redirections(easy: curl::easy::Easy) -> u32;

/// Relies on `curl::easy::Easy::max_redirections`: the value is handed to libcurl, whose answer
/// decides the outcome.
/// On success the handle holds the value; no callback is touched.
pub assume_specification[ curl::easy::Easy::max_redirections ](
    easy: &mut curl::easy::Easy,
    max: u32,
) -> (r: Result<(), curl::Error>)
    ensures
        r is Ok ==> easy_max_redirections(*final(easy)) == max,
        easy_has_write_callback(*final(easy)) == easy_has_write_callback(*old(easy)),
        easy_has_read_callback(*final(easy)) == easy_has_read_callback(*old(easy)),
;

/// The value last handed to the handle through `Easy::put`.
pub uninterp spec fn easy_put(easy: curl::easy::Easy) -> bool;

/// Relies on `curl::easy::Easy::put`: libcurl takes any value of this switch.
/// On success the handle holds the value; no callback is touched.
pub assume_specification[ curl::easy::Easy::put ](
    easy: &mut curl::easy::Easy,
    enable: bool,
) -> (r: Result<(), curl::Error>)
    ensures
        r is Ok,
        easy_put(*final(easy)) == enable,
        easy_has_write_callback(*final(easy)) == easy_has_write_callback(*old(easy)),
        easy_has_read_callback(*final(easy)) == easy_has_read_callback(*old(easy)),
;

/// The value last handed to the handle through `Easy::post`.
pub uninterp spec fn easy_post(easy: curl::easy::Easy) -> bool;

/// Relies on `curl::easy::Easy::post`: libcurl takes any value of this switch.
/// On success the handle holds the value; no callback is touched.
pub assume_specification[ curl::easy::Easy::post ](
    easy: &mut curl::easy::Easy,
    enable: bool,
) -> (r: Result<(), curl::Error>)
    ensures
        r is Ok,
        easy_post(*final(easy)) == enable,
        easy_has_write_callback(*final(easy)) == easy_has_write_callback(*old(easy)),
        easy_has_read_callback(*final(easy)) == easy_has_read_callback(*old(easy)),
;

/// The value last handed to the handle through `Easy::post_fields_copy`.
pub uninterp spec fn easy_post_fields_copy(easy: curl::easy::Easy) -> Seq<u8>;

/// Relies on `curl::easy::Easy::post_fields_copy`: it sets the size, then has libcurl copy the bytes, which fails only
/// where memory runs out.
/// On success the handle holds the value; no callback is touched.
pub assume_specification[ curl::easy::Easy::post_fields_copy ](
    easy: &mut curl::easy::Easy,
    data: &[u8],
) -> (r: Result<(), curl::Error>)
    ensures
        r is Ok,
        easy_post_fields_copy(*final(easy)) == data@,
        easy_has_write_callback(*final(easy)) == easy_has_write_callback(*old(easy)),
        easy_has_read_callback(*final(easy)) == easy_has_read_callback(*old(easy)),
;

/// The value last handed to the handle through `Easy::post_field_size`.
pub uninterp spec fn easy_post_field_size(easy: curl::easy::Easy) -> u64;

/// Relies on `curl::easy::Easy::post_field_size`: the value is handed to libcurl, whose answer
/// decides the outcome.
/// On success the handle holds the value; no callback is touched.
pub assume_specification[ curl::easy::Easy::post_field_size ](
    easy: &mut curl::easy::Easy,
    size: u64,
) -> (r: Result<(), curl::Error>)
    ensures
        r is Ok ==> easy_post_field_size(*final(easy)) == size,
        easy_has_write_callback(*final(easy)) == easy_has_write_callback(*old(easy)),
        easy_has_read_callback(*final(easy)) == easy_has_read_callback(*old(easy)),
;

/// The value last handed to the handle through `Easy::referer`.
pub uninterp spec fn easy_referer(easy: curl::easy::Easy) -> Seq<char>;

/// Relies on `curl::easy::Easy::referer`: the text goes to libcurl as a C string, so one
/// with an interior NUL is refused before libcurl sees it.
/// On success the handle holds the value; no callback is touched.
pub assume_specification[ curl::easy::Easy::referer ](
    easy: &mut curl::easy::Easy,
    referer: &str,
) -> (r: Result<(), curl::Error>)
    ensures
        r is Ok ==> easy_referer(*final(easy)) == referer@,
        referer@.contains('\0') ==> r is Err,
        easy_has_write_callback(*final(easy)) == easy_has_write_callback(*old(easy)),
        easy_has_read_callback(*final(easy)) == easy_has_read_callback(*old(easy)),
;

/// The value last handed to the handle through `Easy::useragent`.
pub uninterp spec fn easy_useragent(easy: curl::easy::Easy) -> Seq<char>;

/// Relies on `curl::easy::Easy::useragent`: the text goes to libcurl as a C string, so one
/// with an interior NUL is refused before libcurl sees it.
/// On success the handle holds the value; no callback is touched.
pub assume_specification[ curl::easy::Easy::useragent ](
    easy: &mut curl::easy::Easy,
    useragent: &str,
) -> (r: Result<(), curl::Error>)
    ensures
        r is Ok ==> easy_useragent(*final(easy)) == useragent@,
        useragent@.contains('\0') ==> r is Err,
        easy_has_write_callback(*final(easy)) == easy_has_write_callback(*old(easy)),
        easy_has_read_callback(*final(easy)) == easy_has_read_callback(*old(easy)),
;

/// The value last handed to the handle through `Easy::http_headers`.
pub uninterp spec fn easy_http_headers(easy: curl::easy::Easy) -> curl::easy::List;

/// Relies on `curl::easy::Easy::http_headers`: the value is handed to libcurl, whose answer
/// decides the outcome.
/// On success the handle holds the value; no callback is touched.
pub assume_specification[ curl::easy::Easy::http_headers ](
    easy: &mut curl::easy::Easy,
    list: curl::easy::List,
) -> (r: Result<(), curl::Error>)
    ensures
        r is Ok ==> easy_http_headers(*final(easy)) == list,
        easy_has_write_callback(*final(easy)) == easy_has_write_callback(*old(easy)),
        easy_has_read_callback(*final(easy)) == easy_has_read_callback(*old(easy)),
;

/// The value last handed to the handle through `Easy::cookie`.
pub uninterp spec fn easy_cookie(easy: curl::easy::Easy) -> Seq<char>;

/// Relies on `curl::easy::Easy::cookie`: the text goes to libcurl as a C string, so one
/// with an interior NUL is refused before libcurl sees it.
/// On success the handle holds the value; no callback is touched.
pub assume_specification[ curl::easy::Easy::cookie ](
    easy: &mut curl::easy::Easy,
    cookie: &str,
) -> (r: Result<(), curl::Error>)
    ensures
        r is Ok ==> easy_cookie(*final(easy)) == cookie@,
        cookie@.contains('\0') ==> r is Err,
        easy_has_write_callback(*final(easy)) == easy_has_write_callback(*old(easy)),
        easy_has_read_callback(*final(easy)) == easy_has_read_callback(*old(easy)),
;

/// Relies on `curl::easy::Easy::cookie_file`: the path is handed to libcurl,
/// whose answer decides the outcome; no callback is touched.
pub assume_specification<P: AsRef<std::path::Path>>[ curl::easy::Easy::cookie_file::<P> ](
    easy: &mut curl::easy::Easy,
    file: P,
) -> (r: Result<(), curl::Error>)
    ensures
        easy_has_write_callback(*final(easy)) == easy_has_write_callback(*old(easy)),
        easy_has_read_callback(*final(easy)) == easy_has_read_callback(*old(easy)),
;

/// Relies on `curl::easy::Easy::cookie_jar`: the path is handed to libcurl,
/// whose answer decides the outcome; no callback is touched.
pub assume_specification<P: AsRef<std::path::Path>>[ curl::easy::Easy::cookie_jar::<P> ](
    easy: &mut curl::easy::Easy,
    file: P,
) -> (r: Result<(), curl::Error>)
    ensures
        easy_has_write_callback(*final(easy)) == easy_has_write_callback(*old(easy)),
        easy_has_read_callback(*final(easy)) == easy_has_read_callback(*old(easy)),
;

/// The value last handed to the handle through `Easy::cookie_session`.
pub uninterp spec fn easy_cookie_session(easy: curl::easy::Easy) -> bool;

/// Relies on `curl::easy::Easy::cookie_session`: the value is handed to libcurl, whose answer
/// decides the outcome.
/// On success the handle holds the value; no callback is touched.
pub assume_specification[ curl::easy::Easy::cookie_session ](
    easy: &mut curl::easy::Easy,
    session: bool,
) -> (r: Result<(), curl::Error>)
    ensures
        r is Ok ==> easy_cookie_session(*final(easy)) == session,
        easy_has_write_callback(*final(easy)) == easy_has_write_callback(*old(easy)),
        easy_has_read_callback(*final(easy)) == easy_has_read_callback(*old(easy)),
;

/// The value last handed to the handle through `Easy::cookie_list`.
pub uninterp spec fn easy_cookie_list(easy: curl::easy::Easy) -> Seq<char>;

/// Relies on `curl::easy::Easy::cookie_list`: the text goes to libcurl as a C string, so one
/// with an interior NUL is refused before libcurl sees it.
/// On success the handle holds the value; no callback is touched.
pub assume_specification[ curl::easy::Easy::cookie_list ](
    easy: &mut curl::easy::Easy,
    cookie: &str,
) -> (r: Result<(), curl::Error>)
    ensures
        r is Ok ==> easy_cookie_list(*final(easy)) == cookie@,
        cookie@.contains('\0') ==> r is Err,
        easy_has_write_callback(*final(easy)) == easy_has_write_callback(*old(easy)),
        easy_has_read_callback(*final(easy)) == easy_has_read_callback(*old(easy)),
;

/// The value last handed to the handle through `Easy::get`.
pub uninterp spec fn easy_get(easy: curl::easy::Easy) -> bool;

/// Relies on `curl::easy::Easy::get`: libcurl takes any value of this switch.
/// On success the handle holds the value; no callback is touched.
pub assume_specification[ curl::easy::Easy::get ](
    easy: &mut curl::easy::Easy,
    enable: bool,
) -> (r: Result<(), curl::Error>)
    ensures
        r is Ok,
        easy_get(*final(easy)) == enable,
        easy_has_write_callback(*final(easy)) == easy_has_write_callback(*old(easy)),
        easy_has_read_callback(*final(easy)) == easy_has_read_callback(*old(easy)),
;

/// The value last handed to the handle through `Easy::ignore_content_length`.
pub uninterp spec fn easy_ignore_content_length(easy: curl::easy::Easy) -> bool;

/// Relies on `curl::easy::Easy::ignore_content_length`: libcurl takes any value of this switch.
/// On success the handle holds the value; no callback is touched.
pub assume_specification[ curl::easy::Easy::ignore_content_length ](
    easy: &mut curl::easy::Easy,
    ignore: bool,
) -> (r: Result<(), curl::Error>)
    ensures
        r is Ok,
        easy_ignore_content_length(*final(easy)) == ignore,
        easy_has_write_callback(*final(easy)) == easy_has_write_callback(*old(easy)),
        easy_has_read_callback(*final(easy)) == easy_has_read_callback(*old(easy)),
;

/// The value last handed to the handle through `Easy::http_content_decoding`.
pub uninterp spec fn easy_http_content_decoding(easy: curl::easy::Easy) -> bool;

/// Relies on `curl::easy::Easy::http_content_decoding`: libcurl takes any value of this switch.
/// On success the handle holds the value; no callback is touched.
pub assume_specification[ curl::easy::Easy::http_content_decoding ](
    easy: &mut curl::easy::Easy,
    enable: bool,
) -> (r: Result<(), curl::Error>)
    ensures
        r is Ok,
        easy_http_content_decoding(*final(easy)) == enable,
        easy_has_write_callback(*final(easy)) == easy_has_write_callback(*old(easy)),
        easy_has_read_callback(*final(easy)) == easy_has_read_callback(*old(easy)),
;

/// The value last handed to the handle through `Easy::http_transfer_decoding`.
pub uninterp spec fn easy_http_transfer_decoding(easy: curl::easy::Easy) -> bool;

/// Relies on `curl::easy::Easy::http_transfer_decoding`: libcurl takes any value of this switch.
/// On success the handle holds the value; no callback is touched.
pub assume_specification[ curl::easy::Easy::http_transfer_decoding ](
    easy: &mut curl::easy::Easy,
    enable: bool,
) -> (r: Result<(), curl::Error>)
    ensures
        r is Ok,
        easy_http_transfer_decoding(*final(easy)) == enable,
        easy_has_write_callback(*final(easy)) == easy_has_write_callback(*old(easy)),
        easy_has_read_callback(*final(easy)) == easy_has_read_callback(*old(easy)),
;

/// The value last handed to the handle through `Easy::range`.
pub uninterp spec fn easy_range(easy: curl::easy::Easy) -> Seq<char>;

/// Relies on `curl::easy::Easy::range`: the text goes to libcurl as a C string, so one
/// with an interior NUL is refused before libcurl sees it.
/// On success the handle holds the value; no callback is touched.
pub assume_specification[ curl::easy::Easy::range ](
    easy: &mut curl::easy::Easy,
    range: &str,
) -> (r: Result<(), curl::Error>)
    ensures
        r is Ok ==> easy_range(*final(easy)) == range@,
        range@.contains('\0') ==> r is Err,
        easy_has_write_callback(*final(easy)) == easy_has_write_callback(*old(easy)),
        easy_has_read_callback(*final(easy)) == easy_has_read_callback(*old(easy)),
;

/// The value last handed to the handle through `Easy::resume_from`.
pub uninterp spec fn easy_resume_from(easy: curl::easy::Easy) -> u64;

/// Relies on `curl::easy::Easy::resume_from`: the value is handed to libcurl, whose answer
/// decides the outcome.
/// On success the handle holds the value; no callback is touched.
pub assume_specification[ curl::easy::Easy::resume_from ](
    easy: &mut curl::easy::Easy,
    from: u64,
) -> (r: Result<(), curl::Error>)
    ensures
        r is Ok ==> easy_resume_from(*final(easy)) == from,
        easy_has_write_callback(*final(easy)) == easy_has_write_callback(*old(easy)),
        easy_has_read_callback(*final(easy)) == easy_has_read_callback(*old(easy)),
;

/// The value last handed to the handle through `Easy::custom_request`.
pub uninterp spec fn easy_custom_request(easy: curl::easy::Easy) -> Seq<char>;

/// Relies on `curl::easy::Easy::custom_request`: the text goes to libcurl as a C string, so one
/// with an interior NUL is refused before libcurl sees it.
/// On success the handle holds the value; no callback is touched.
pub assume_specification[ curl::easy::Easy::custom_request ](
    easy: &mut curl::easy::Easy,
    request: &str,
) -> (r: Result<(), curl::Error>)
    ensures
        r is Ok ==> easy_custom_request(*final(easy)) == request@,
        request@.contains('\0') ==> r is Err,
        easy_has_write_callback(*final(easy)) == easy_has_write_callback(*old(easy)),
        easy_has_read_callback(*final(easy)) == easy_has_read_callback(*old(easy)),
;

/// The value last handed to the handle through `Easy::fetch_filetime`.
pub uninterp spec fn easy_fetch_filetime(easy: curl::easy::Easy) -> bool;

/// Relies on `curl::easy::Easy::fetch_filetime`: libcurl takes any value of this switch.
/// On success the handle holds the value; no callback is touched.
pub assume_specification[ curl::easy::Easy::fetch_filetime ](
    easy: &mut curl::easy::Easy,
    fetch: bool,
) -> (r: Result<(), curl::Error>)
    ensures
        r is Ok,
        easy_fetch_filetime(*final(easy)) == fetch,
        easy_has_write_callback(*final(easy)) == easy_has_write_callback(*old(easy)),
        easy_has_read_callback(*final(easy)) == easy_has_read_callback(*old(easy)),
;

/// The value last handed to the handle through `Easy::nobody`.
pub uninterp spec fn easy_nobody(easy: curl::easy::Easy) -> bool;

/// Relies on `curl::easy::Easy::nobody`: libcurl takes any value of this switch.
/// On success the handle holds the value; no callback is touched.
pub assume_specification[ curl::easy::Easy::nobody ](
    easy: &mut curl::easy::Easy,
    enable: bool,
) -> (r: Result<(), curl::Error>)
    ensures
        r is Ok,
        easy_nobody(*final(easy)) == enable,
        easy_has_write_callback(*final(easy)) == easy_has_write_callback(*old(easy)),
        easy_has_read_callback(*final(easy)) == easy_has_read_callback(*old(easy)),
;

/// The value last handed to the handle through `Easy::in_filesize`.
pub uninterp spec fn easy_in_filesize(easy: curl::easy::Easy) -> u64;

/// Relies on `curl::easy::Easy::in_filesize`: the value is handed to libcurl, whose answer
/// decides the outcome.
/// On success the handle holds the value; no callback is touched.
pub assume_specification[ curl::easy::Easy::in_filesize ](
    easy: &mut curl::easy::Easy,
    size: u64,
) -> (r: Result<(), curl::Error>)
    ensures
        r is Ok ==> easy_in_filesize(*final(easy)) == size,
        easy_has_write_callback(*final(easy)) == easy_has_write_callback(*old(easy)),
        easy_has_read_callback(*final(easy)) == easy_has_read_callback(*old(easy)),
;

/// The value last handed to the handle through `Easy::upload`.
pub uninterp spec fn easy_upload(easy: curl::easy::Easy) -> bool;

/// Relies on `curl::easy::Easy::upload`: libcurl takes any value of this switch.
/// On success the handle holds the value; no callback is touched.
pub assume_specification[ curl::easy::Easy::upload ](
    easy: &mut curl::easy::Easy,
    enable: bool,
) -> (r: Result<(), curl::Error>)
    ensures
        r is Ok,
        easy_upload(*final(easy)) == enable,
        easy_has_write_callback(*final(easy)) == easy_has_write_callback(*old(easy)),
        easy_has_read_callback(*final(easy)) == easy_has_read_callback(*old(easy)),
;

/// The value last handed to the handle through `Easy::max_filesize`.
pub uninterp spec fn easy_max_filesize(easy: curl::easy::Easy) -> u64;

/// Relies on `curl::easy::Easy::max_filesize`: the value is handed to libcurl, whose answer
/// decides the outcome.
/// On success the handle holds the value; no callback is touched.
pub assume_specification[ curl::easy::Easy::max_filesize ](
    easy: &mut curl::easy::Easy,
    size: u64,
) -> (r: Result<(), curl::Error>)
    ensures
        r is Ok ==> easy_max_filesize(*final(easy)) == size,
        easy_has_write_callback(*final(easy)) == easy_has_write_callback(*old(easy)),
        easy_has_read_callback(*final(easy)) == easy_has_read_callback(*old(easy)),
;

/// The value last handed to the handle through `Easy::time_condition`.
pub uninterp spec fn easy_time_condition(easy: curl::easy::Easy) -> curl::easy::TimeCondition;

/// Relies on `curl::easy::Easy::time_condition`: the value is handed to libcurl, whose answer
/// decides the outcome.
/// On success the handle holds the value; no callback is touched.
pub assume_specification[ curl::easy::Easy::time_condition ](
    easy: &mut curl::easy::Easy,
    cond: curl::easy::TimeCondition,
) -> (r: Result<(), curl::Error>)
    ensures
        r is Ok ==> easy_time_condition(*final(easy)) == cond,
        easy_has_write_callback(*final(easy)) == easy_has_write_callback(*old(easy)),
        easy_has_read_callback(*final(easy)) == easy_has_read_callback(*old(easy)),
;

/// The value last handed to the handle through `Easy::time_value`.
pub uninterp spec fn easy_time_value(easy: curl::easy::Easy) -> i64;

/// Relies on `curl::easy::Easy::time_value`: the value is handed to libcurl, whose answer
/// decides the outcome.
/// On success the handle holds the value; no callback is touched.
pub assume_specification[ curl::easy::Easy::time_value ](
    easy: &mut curl::easy::Easy,
    val: i64,
) -> (r: Result<(), curl::Error>)
    ensures
        r is Ok ==> easy_time_value(*final(easy)) == val,
        easy_has_write_callback(*final(easy)) == easy_has_write_callback(*old(easy)),
        easy_has_read_callback(*final(easy)) == easy_has_read_callback(*old(easy)),
;

/// The value last handed to the handle through `Easy::timeout`.
pub uninterp spec fn easy_timeout(easy: curl::easy::Easy) -> std::time::Duration;

/// Relies on `curl::easy::Easy::timeout`: the value is handed to libcurl, whose answer
/// decides the outcome.
/// On success the handle holds the value; no callback is touched.
pub assume_specification[ curl::easy::Easy::timeout ](
    easy: &mut curl::easy::Easy,
    timeout: std::time::Duration,
) -> (r: Result<(), curl::Error>)
    ensures
        r is Ok ==> easy_timeout(*final(easy)) == timeout,
        easy_has_write_callback(*final(easy)) == easy_has_write_callback(*old(easy)),
        easy_has_read_callback(*final(easy)) == easy_has_read_callback(*old(easy)),
;

/// The value last handed to the handle through `Easy::low_speed_limit`.
pub uninterp spec fn easy_low_speed_limit(easy: curl::easy::Easy) -> u32;

/// Relies on `curl::easy::Easy::low_speed_limit`: the value is handed to libcurl, whose answer
/// decides the outcome.
/// On success the handle holds the value; no callback is touched.
pub assume_specification[ curl::easy::Easy::low_speed_limit ](
    easy: &mut curl::easy::Easy,
    limit: u32,
) -> (r: Result<(), curl::Error>)
    ensures
        r is Ok ==> easy_low_speed_limit(*final(easy)) == limit,
        easy_has_write_callback(*final(easy)) == easy_has_write_callback(*old(easy)),
        easy_has_read_callback(*final(easy)) == easy_has_read_callback(*old(easy)),
;

/// The value last handed to the handle through `Easy::low_speed_time`.
pub uninterp spec fn easy_low_speed_time(easy: curl::easy::Easy) -> std::time::Duration;

/// Relies on `curl::easy::Easy::low_speed_time`: the value is handed to libcurl, whose answer
/// decides the outcome.
/// On success the handle holds the value; no callback is touched.
pub assume_specification[ curl::easy::Easy::low_speed_time ](
    easy: &mut curl::easy::Easy,
    dur: std::time::Duration,
) -> (r: Result<(), curl::Error>)
    ensures
        r is Ok ==> easy_low_speed_time(*final(easy)) == dur,
        easy_has_write_callback(*final(easy)) == easy_has_write_callback(*old(easy)),
        easy_has_read_callback(*final(easy)) == easy_has_read_callback(*old(easy)),
;

/// The value last handed to the handle through `Easy::max_send_speed`.
pub uninterp spec fn easy_max_send_speed(easy: curl::easy::Easy) -> u64;

/// Relies on `curl::easy::Easy::max_send_speed`: the value is handed to libcurl, whose answer
/// decides the outcome.
/// On success the handle holds the value; no callback is touched.
pub assume_specification[ curl::easy::Easy::max_send_speed ](
    easy: &mut curl::easy::Easy,
    speed: u64,
) -> (r: Result<(), curl::Error>)
    ensures
        r is Ok ==> easy_max_send_speed(*final(easy)) == speed,
        easy_has_write_callback(*final(easy)) == easy_has_write_callback(*old(easy)),
        easy_has_read_callback(*final(easy)) == easy_has_read_callback(*old(easy)),
;

/// The value last handed to the handle through `Easy::max_recv_speed`.
pub uninterp spec fn easy_max_recv_speed(easy: curl::easy::Easy) -> u64;

/// Relies on `curl::easy::Easy::max_recv_speed`: the value is handed to libcurl, whose answer
/// decides the outcome.
/// On success the handle holds the value; no callback is touched.
pub assume_specification[ curl::easy::Easy::max_recv_speed ](
    easy: &mut curl::easy::Easy,
    speed: u64,
) -> (r: Result<(), curl::Error>)
    ensures
        r is Ok ==> easy_max_recv_speed(*final(easy)) == speed,
        easy_has_write_callback(*final(easy)) == easy_has_write_callback(*old(easy)),
        easy_has_read_callback(*final(easy)) == easy_has_read_callback(*old(easy)),
;

/// The value last handed to the handle through `Easy::max_connects`.
pub uninterp spec fn easy_max_connects(easy: curl::easy::Easy) -> u32;

/// Relies on `curl::easy::Easy::max_connects`: the value is handed to libcurl, whose answer
/// decides the outcome.
/// On success the handle holds the value; no callback is touched.
pub assume_specification[ curl::easy::Easy::max_connects ](
    easy: &mut curl::easy::Easy,
    max: u32,
) -> (r: Result<(), curl::Error>)
    ensures
        r is Ok ==> easy_max_connects(*final(easy)) == max,
        easy_has_write_callback(*final(easy)) == easy_has_write_callback(*old(easy)),
        easy_has_read_callback(*final(easy)) == easy_has_read_callback(*old(easy)),
;

/// The value last handed to the handle through `Easy::fresh_connect`.
pub uninterp spec fn easy_fresh_connect(easy: curl::easy::Easy) -> bool;

/// Relies on `curl::easy::Easy::fresh_connect`: libcurl takes any value of this switch.
/// On success the handle holds the value; no callback is touched.
pub assume_specification[ curl::easy::Easy::fresh_connect ](
    easy: &mut curl::easy::Easy,
    enable: bool,
) -> (r: Result<(), curl::Error>)
    ensures
        r is Ok,
        easy_fresh_connect(*final(easy)) == enable,
        easy_has_write_callback(*final(easy)) == easy_has_write_callback(*old(easy)),
        easy_has_read_callback(*final(easy)) == easy_has_read_callback(*old(easy)),
;

/// The value last handed to the handle through `Easy::forbid_reuse`.
pub uninterp spec fn easy_forbid_reuse(easy: curl::easy::Easy) -> bool;

/// Relies on `curl::easy::Easy::forbid_reuse`: libcurl takes any value of this switch.
/// On success the handle holds the value; no callback is touched.
pub assume_specification[ curl::easy::Easy::forbid_reuse ](
    easy: &mut curl::easy::Easy,
    enable: bool,
) -> (r: Result<(), curl::Error>)
    ensures
        r is Ok,
        easy_forbid_reuse(*final(easy)) == enable,
        easy_has_write_callback(*final(easy)) == easy_has_write_callback(*old(easy)),
        easy_has_read_callback(*final(easy)) == easy_has_read_callback(*old(easy)),
;

/// The value last handed to the handle through `Easy::connect_timeout`.
pub uninterp spec fn easy_connect_timeout(easy: curl::easy::Easy) -> std::time::Duration;

/// Relies on `curl::easy::Easy::connect_timeout`: the value is handed to libcurl, whose answer
/// decides the outcome.
/// On success the handle holds the value; no callback is touched.
pub assume_specification[ curl::easy::Easy::connect_timeout ](
    easy: &mut curl::easy::Easy,
    timeout: std::time::Duration,
) -> (r: Result<(), curl::Error>)
    ensures
        r is Ok ==> easy_connect_timeout(*final(easy)) == timeout,
        easy_has_write_callback(*final(easy)) == easy_has_write_callback(*old(easy)),
        easy_has_read_callback(*final(easy)) == easy_has_read_callback(*old(easy)),
;

/// The value last handed to the handle through `Easy::ip_resolve`.
pub uninterp spec fn easy_ip_resolve(easy: curl::easy::Easy) -> curl::easy::IpResolve;

/// Relies on `curl::easy::Easy::ip_resolve`: the value is handed to libcurl, whose answer
/// decides the outcome.
/// On success the handle holds the value; no callback is touched.
pub assume_specification[ curl::easy::Easy::ip_resolve ](
    easy: &mut curl::easy::Easy,
    resolve: curl::easy::IpResolve,
) -> (r: Result<(), curl::Error>)
    ensures
        r is Ok ==> easy_ip_resolve(*final(easy)) == resolve,
        easy_has_write_callback(*final(easy)) == easy_has_write_callback(*old(easy)),
        easy_has_read_callback(*final(easy)) == easy_has_read_callback(*old(easy)),
;

/// The value last handed to the handle through `Easy::connect_only`.
pub uninterp spec fn easy_connect_only(easy: curl::easy::Easy) -> bool;

/// Relies on `curl::easy::Easy::connect_only`: the value is handed to libcurl, whose answer
/// decides the outcome.
/// On success the handle holds the value; no callback is touched.
pub assume_specification[ curl::easy::Easy::connect_only ](
    easy: &mut curl::easy::Easy,
    enable: bool,
) -> (r: Result<(), curl::Error>)
    ensures
        r is Ok ==> easy_connect_only(*final(easy)) == enable,
        easy_has_write_callback(*final(easy)) == easy_has_write_callback(*old(easy)),
        easy_has_read_callback(*final(easy)) == easy_has_read_callback(*old(easy)),
;

/// Relies on `curl::easy::Easy::ssl_cert`: the path is handed to libcurl,
/// whose answer decides the outcome; no callback is touched.
pub assume_specification<P: AsRef<std::path::Path>>[ curl::easy::Easy::ssl_cert::<P> ](
    easy: &mut curl::easy::Easy,
    cert: P,
) -> (r: Result<(), curl::Error>)
    ensures
        easy_has_write_callback(*final(easy)) == easy_has_write_callback(*old(easy)),
        easy_has_read_callback(*final(easy)) == easy_has_read_callback(*old(easy)),
;

/// The value last handed to the handle through `Easy::ssl_cert_type`.
pub uninterp spec fn easy_ssl_cert_type(easy: curl::easy::Easy) -> Seq<char>;

/// Relies on `curl::easy::Easy::ssl_cert_type`: the text goes to libcurl as a C string, so one
/// with an interior NUL is refused before libcurl sees it.
/// On success the handle holds the value; no callback is touched.
pub assume_specification[ curl::easy::Easy::ssl_cert_type ](
    easy: &mut curl::easy::Easy,
    kind: &str,
) -> (r: Result<(), curl::Error>)
    ensures
        r is Ok ==> easy_ssl_cert_type(*final(easy)) == kind@,
        kind@.contains('\0') ==> r is Err,
        easy_has_write_callback(*final(easy)) == easy_has_write_callback(*old(easy)),
        easy_has_read_callback(*final(easy)) == easy_has_read_callback(*old(easy)),
;

/// Relies on `curl::easy::Easy::ssl_key`: the path is handed to libcurl,
/// whose answer decides the outcome; no callback is touched.
pub assume_specification<P: AsRef<std::path::Path>>[ curl::easy::Easy::ssl_key::<P> ](
    easy: &mut curl::easy::Easy,
    key: P,
) -> (r: Result<(), curl::Error>)
    ensures
        easy_has_write_callback(*final(easy)) == easy_has_write_callback(*old(easy)),
        easy_has_read_callback(*final(easy)) == easy_has_read_callback(*old(easy)),
;

/// The value last handed to the handle through `Easy::ssl_key_type`.
pub uninterp spec fn easy_ssl_key_type(easy: curl::easy::Easy) -> Seq<char>;

/// Relies on `curl::easy::Easy::ssl_key_type`: the text goes to libcurl as a C string, so one
/// with an interior NUL is refused before libcurl sees it.
/// On success the handle holds the value; no callback is touched.
pub assume_specification[ curl::easy::Easy::ssl_key_type ](
    easy: &mut curl::easy::Easy,
    kind: &str,
) -> (r: Result<(), curl::Error>)
    ensures
        r is Ok ==> easy_ssl_key_type(*final(easy)) == kind@,
        kind@.contains('\0') ==> r is Err,
        easy_has_write_callback(*final(easy)) == easy_has_write_callback(*old(easy)),
        easy_has_read_callback(*final(easy)) == easy_has_read_callback(*old(easy)),
;

/// The value last handed to the handle through `Easy::key_password`.
pub uninterp spec fn easy_key_password(easy: curl::easy::Easy) -> Seq<char>;

/// Relies on `curl::easy::Easy::key_password`: the text goes to libcurl as a C string, so one
/// with an interior NUL is refused before libcurl sees it.
/// On success the handle holds the value; no callback is touched.
pub assume_specification[ curl::easy::Easy::key_password ](
    easy: &mut curl::easy::Easy,
    password: &str,
) -> (r: Result<(), curl::Error>)
    ensures
        r is Ok ==> easy_key_password(*final(easy)) == password@,
        password@.contains('\0') ==> r is Err,
        easy_has_write_callback(*final(easy)) == easy_has_write_callback(*old(easy)),
        easy_has_read_callback(*final(easy)) == easy_has_read_callback(*old(easy)),
;

/// The value last handed to the handle through `Easy::ssl_engine`.
pub uninterp spec fn easy_ssl_engine(easy: curl::easy::Easy) -> Seq<char>;

/// Relies on `curl::easy::Easy::ssl_engine`: the text goes to libcurl as a C string, so one
/// with an interior NUL is refused before libcurl sees it.
/// On success the handle holds the value; no callback is touched.
pub assume_specification[ curl::easy::Easy::ssl_engine ](
    easy: &mut curl::easy::Easy,
    engine: &str,
) -> (r: Result<(), curl::Error>)
    ensures
        r is Ok ==> easy_ssl_engine(*final(easy)) == engine@,
        engine@.contains('\0') ==> r is Err,
        easy_has_write_callback(*final(easy)) == easy_has_write_callback(*old(easy)),
        easy_has_read_callback(*final(easy)) == easy_has_read_callback(*old(easy)),
;

/// The value last handed to the handle through `Easy::ssl_engine_default`.
pub uninterp spec fn easy_ssl_engine_default(easy: curl::easy::Easy) -> bool;

/// Relies on `curl::easy::Easy::ssl_engine_default`: the value is handed to libcurl, whose answer
/// decides the outcome.
/// On success the handle holds the value; no callback is touched.
pub assume_specification[ curl::easy::Easy::ssl_engine_default ](
    easy: &mut curl::easy::Easy,
    enable: bool,
) -> (r: Result<(), curl::Error>)
    ensures
        r is Ok ==> easy_ssl_engine_default(*final(easy)) == enable,
        easy_has_write_callback(*final(easy)) == easy_has_write_callback(*old(easy)),
        easy_has_read_callback(*final(easy)) == easy_has_read_callback(*old(easy)),
;

/// The value last handed to the handle through `Easy::ssl_version`.
pub uninterp spec fn easy_ssl_version(easy: curl::easy::Easy) -> curl::easy::SslVersion;

/// Relies on `curl::easy::Easy::ssl_version`: the value is handed to libcurl, whose answer
/// decides the outcome.
/// On success the handle holds the value; no callback is touched.
pub assume_specification[ curl::easy::Easy::ssl_version ](
    easy: &mut curl::easy::Easy,
    version: curl::easy::SslVersion,
) -> (r: Result<(), curl::Error>)
    ensures
        r is Ok ==> easy_ssl_version(*final(easy)) == version,
        easy_has_write_callback(*final(easy)) == easy_has_write_callback(*old(easy)),
        easy_has_read_callback(*final(easy)) == easy_has_read_callback(*old(easy)),
;

/// The value last handed to the handle through `Easy::ssl_verify_host`.
pub uninterp spec fn easy_ssl_verify_host(easy: curl::easy::Easy) -> bool;

/// Relies on `curl::easy::Easy::ssl_verify_host`: libcurl takes any value of this switch.
/// On success the handle holds the value; no callback is touched.
pub assume_specification[ curl::easy::Easy::ssl_verify_host ](
    easy: &mut curl::easy::Easy,
    verify: bool,
) -> (r: Result<(), curl::Error>)
    ensures
        r is Ok,
        easy_ssl_verify_host(*final(easy)) == verify,
        easy_has_write_callback(*final(easy)) == easy_has_write_callback(*old(easy)),
        easy_has_read_callback(*final(easy)) == easy_has_read_callback(*old(easy)),
;

/// The value last handed to the handle through `Easy::ssl_verify_peer`.
pub uninterp spec fn easy_ssl_verify_peer(easy: curl::easy::Easy) -> bool;

/// Relies on `curl::easy::Easy::ssl_verify_peer`: libcurl takes any value of this switch.
/// On success the handle holds the value; no callback is touched.
pub assume_specification[ curl::easy::Easy::ssl_verify_peer ](
    easy: &mut curl::easy::Easy,
    verify: bool,
) -> (r: Result<(), curl::Error>)
    ensures
        r is Ok,
        easy_ssl_verify_peer(*final(easy)) == verify,
        easy_has_write_callback(*final(easy)) == easy_has_write_callback(*old(easy)),
        easy_has_read_callback(*final(easy)) == easy_has_read_callback(*old(easy)),
;

/// Relies on `curl::easy::Easy::cainfo`: the path is handed to libcurl,
/// whose answer decides the outcome; no callback is touched.
pub assume_specification<P: AsRef<std::path::Path>>[ curl::easy::Easy::cainfo::<P> ](
    easy: &mut curl::easy::Easy,
    path: P,
) -> (r: Result<(), curl::Error>)
    ensures
        easy_has_write_callback(*final(easy)) == easy_has_write_callback(*old(easy)),
        easy_has_read_callback(*final(easy)) == easy_has_read_callback(*old(easy)),
;

/// Relies on `curl::easy::Easy::issuer_cert`: the path is handed to libcurl,
/// whose answer decides the outcome; no callback is touched.
pub assume_specification<P: AsRef<std::path::Path>>[ curl::easy::Easy::issuer_cert::<P> ](
    easy: &mut curl::easy::Easy,
    path: P,
) -> (r: Result<(), curl::Error>)
    ensures
        easy_has_write_callback(*final(easy)) == easy_has_write_callback(*old(easy)),
        easy_has_read_callback(*final(easy)) == easy_has_read_callback(*old(easy)),
;

/// Relies on `curl::easy::Easy::capath`: the path is handed to libcurl,
/// whose answer decides the outcome; no callback is touched.
pub assume_specification<P: AsRef<std::path::Path>>[ curl::easy::Easy::capath::<P> ](
    easy: &mut curl::easy::Easy,
    path: P,
) -> (r: Result<(), curl::Error>)
    ensures
        easy_has_write_callback(*final(easy)) == easy_has_write_callback(*old(easy)),
        easy_has_read_callback(*final(easy)) == easy_has_read_callback(*old(easy)),
;

/// Relies on `curl::easy::Easy::crlfile`: the path is handed to libcurl,
/// whose answer decides the outcome; no callback is touched.
pub assume_specification<P: AsRef<std::path::Path>>[ curl::easy::Easy::crlfile::<P> ](
    easy: &mut curl::easy::Easy,
    path: P,
) -> (r: Result<(), curl::Error>)
    ensures
        easy_has_write_callback(*final(easy)) == easy_has_write_callback(*old(easy)),
        easy_has_read_callback(*final(easy)) == easy_has_read_callback(*old(easy)),
;

/// The value last handed to the handle through `Easy::certinfo`.
pub uninterp spec fn easy_certinfo(easy: curl::easy::Easy) -> bool;

/// Relies on `curl::easy::Easy::certinfo`: the value is handed to libcurl, whose answer
/// decides the outcome.
/// On success the handle holds the value; no callback is touched.
pub assume_specification[ curl::easy::Easy::certinfo ](
    easy: &mut curl::easy::Easy,
    enable: bool,
) -> (r: Result<(), curl::Error>)
    ensures
        r is Ok ==> easy_certinfo(*final(easy)) == enable,
        easy_has_write_callback(*final(easy)) == easy_has_write_callback(*old(easy)),
        easy_has_read_callback(*final(easy)) == easy_has_read_callback(*old(easy)),
;

/// Relies on `curl::easy::Easy::random_file`: the path is handed to libcurl,
/// whose answer decides the outcome; no callback is touched.
pub assume_specification<P: AsRef<std::path::Path>>[ curl::easy::Easy::random_file::<P> ](
    easy: &mut curl::easy::Easy,
    p: P,
) -> (r: Result<(), curl::Error>)
    ensures
        easy_has_write_callback(*final(easy)) == easy_has_write_callback(*old(easy)),
        easy_has_read_callback(*final(easy)) == easy_has_read_callback(*old(easy)),
;

/// Relies on `curl::easy::Easy::egd_socket`: the path is handed to libcurl,
/// whose answer decides the outcome; no callback is touched.
pub assume_specification<P: AsRef<std::path::Path>>[ curl::easy::Easy::egd_socket::<P> ](
    easy: &mut curl::easy::Easy,
    p: P,
) -> (r: Result<(), curl::Error>)
    ensures
        easy_has_write_callback(*final(easy)) == easy_has_write_callback(*old(easy)),
        easy_has_read_callback(*final(easy)) == easy_has_read_callback(*old(easy)),
;

/// The value last handed to the handle through `Easy::ssl_cipher_list`.
pub uninterp spec fn easy_ssl_cipher_list(easy: curl::easy::Easy) -> Seq<char>;

/// Relies on `curl::easy::Easy::ssl_cipher_list`: the text goes to libcurl as a C string, so one
/// with an interior NUL is refused before libcurl sees it.
/// On success the handle holds the value; no callback is touched.
pub assume_specification[ curl::easy::Easy::ssl_cipher_list ](
    easy: &mut curl::easy::Easy,
    ciphers: &str,
) -> (r: Result<(), curl::Error>)
    ensures
        r is Ok ==> easy_ssl_cipher_list(*final(easy)) == ciphers@,
        ciphers@.contains('\0') ==> r is Err,
        easy_has_write_callback(*final(easy)) == easy_has_write_callback(*old(easy)),
        easy_has_read_callback(*final(easy)) == easy_has_read_callback(*old(easy)),
;

/// The value last handed to the handle through `Easy::ssl_sessionid_cache`.
pub uninterp spec fn easy_ssl_sessionid_cache(easy: curl::easy::Easy) -> bool;

/// Relies on `curl::easy::Easy::ssl_sessionid_cache`: libcurl takes any value of this switch.
/// On success the handle holds the value; no callback is touched.
pub assume_specification[ curl::easy::Easy::ssl_sessionid_cache ](
    easy: &mut curl::easy::Easy,
    enable: bool,
) -> (r: Result<(), curl::Error>)
    ensures
        r is Ok,
        easy_ssl_sessionid_cache(*final(easy)) == enable,
        easy_has_write_callback(*final(easy)) == easy_has_write_callback(*old(easy)),
        easy_has_read_callback(*final(easy)) == easy_has_read_callback(*old(easy)),
;

/// Relies on `curl::easy::Easy::write_function`: it stores the callback in
/// the write slot, touches no other slot, and always succeeds.
pub assume_specification<F>[ curl::easy::Easy::write_function::<F> ](
    easy: &mut curl::easy::Easy,
    f: F,
) -> (r: Result<(), curl::Error>)
    where
        F: FnMut(&[u8]) -> Result<usize, curl::easy::WriteError> + Send + 'static,
    ensures
        r is Ok,
        easy_has_write_callback(*final(easy)),
        easy_has_read_callback(*final(easy)) == easy_has_read_callback(*old(easy)),
;

/// Relies on `curl::easy::Easy::read_function`: it stores the callback in
/// the read slot, touches no other slot, and always succeeds.
pub assume_specification<F>[ curl::easy::Easy::read_function::<F> ](
    easy: &mut curl::easy::Easy,
    f: F,
) -> (r: Result<(), curl::Error>)
    where
        F: FnMut(&mut [u8]) -> Result<usize, curl::easy::ReadError> + Send + 'static,
    ensures
        r is Ok,
        easy_has_read_callback(*final(easy)),
        easy_has_write_callback(*final(easy)) == easy_has_write_callback(*old(easy)),
;

/// Whether the transfer holds a write callback (set by `Transfer::write_function`).
pub uninterp spec fn transfer_has_write_callback(t: curl::easy::Transfer<'_, '_>) -> bool;

/// Whether the transfer holds a read callback (set by `Transfer::read_function`).
pub uninterp spec fn transfer_has_read_callback(t: curl::easy::Transfer<'_, '_>) -> bool;

/// Whether the transfer holds a seek callback (set by `Transfer::seek_function`).
pub uninterp spec fn transfer_has_seek_callback(t: curl::easy::Transfer<'_, '_>) -> bool;

/// Whether the transfer holds a debug callback (set by `Transfer::debug_function`).
pub uninterp spec fn transfer_has_debug_callback(t: curl::easy::Transfer<'_, '_>) -> bool;

/// Whether the transfer holds a progress callback (set by
/// `Transfer::progress_function`).
pub uninterp spec fn transfer_has_progress_callback(t: curl::easy::Transfer<'_, '_>) -> bool;

/// Whether the transfer holds a header callback (set by `Transfer::header_function`).
pub uninterp spec fn transfer_has_header_callback(t: curl::easy::Transfer<'_, '_>) -> bool;

/// Relies on `curl::easy::Easy::transfer`: a transfer that borrows the
/// handle, whose callback slots all start empty. Its check that no transfer
/// runs cannot fail here: a running transfer holds the handle borrowed.
pub assume_specification<'data, 'easy>[ curl::easy::Easy::transfer ](
    easy: &'easy mut curl::easy::Easy,
) -> (r: curl::easy::Transfer<'easy, 'data>)
    ensures
        !transfer_has_write_callback(r),
        !transfer_has_read_callback(r),
        !transfer_has_seek_callback(r),
        !transfer_has_debug_callback(r),
        !transfer_has_header_callback(r),
        !transfer_has_progress_callback(r),
;

/// Relies on `curl::easy::Transfer::write_function`: it stores the callback
/// in the write slot, touches no other slot, and always succeeds.
#[verifier::external_body]
pub(crate) fn set_write_callback<'easy, 'data, F>(
    transfer: &mut curl::easy::Transfer<'easy, 'data>,
    f: F,
) -> (r: Result<(), curl::Error>)
    where
        F: FnMut(&[u8]) -> Result<usize, curl::easy::WriteError> + 'data,
    ensures
        r is Ok,
        transfer_has_write_callback(*final(transfer)),
        transfer_has_read_callback(*final(transfer)) == transfer_has_read_callback(*old(transfer)),
        transfer_has_seek_callback(*final(transfer)) == transfer_has_seek_callback(*old(transfer)),
        transfer_has_debug_callback(*final(transfer)) == transfer_has_debug_callback(*old(transfer)),
        transfer_has_header_callback(*final(transfer)) == transfer_has_header_callback(*old(transfer)),
        transfer_has_progress_callback(*final(transfer)) == transfer_has_progress_callback(*old(transfer)),
{
    transfer.write_function(f)
}

/// Relies on `curl::easy::Transfer::read_function`: it stores the callback
/// in the read slot, touches no other slot, and always succeeds.
#[verifier::external_body]
pub(crate) fn set_read_callback<'easy, 'data, F>(
    transfer: &mut curl::easy::Transfer<'easy, 'data>,
    f: F,
) -> (r: Result<(), curl::Error>)
    where
        F: FnMut(&mut [u8]) -> Result<usize, curl::easy::ReadError> + 'data,
    ensures
        r is Ok,
        transfer_has_read_callback(*final(transfer)),
        transfer_has_write_callback(*final(transfer)) == transfer_has_write_callback(*old(transfer)),
        transfer_has_seek_callback(*final(transfer)) == transfer_has_seek_callback(*old(transfer)),
        transfer_has_debug_callback(*final(transfer)) == transfer_has_debug_callback(*old(transfer)),
        transfer_has_header_callback(*final(transfer)) == transfer_has_header_callback(*old(transfer)),
        transfer_has_progress_callback(*final(transfer)) == transfer_has_progress_callback(*old(transfer)),
{
    transfer.read_function(f)
}

/// Relies on `curl::easy::Transfer::seek_function`: it stores the callback
/// in the seek slot, touches no other slot, and always succeeds.
#[verifier::external_body]
pub(crate) fn set_seek_callback<'easy, 'data, F>(
    transfer: &mut curl::easy::Transfer<'easy, 'data>,
    f: F,
) -> (r: Result<(), curl::Error>)
    where
        F: FnMut(std::io::SeekFrom) -> curl::easy::SeekResult + 'data,
    ensures
        r is Ok,
        transfer_has_seek_callback(*final(transfer)),
        transfer_has_write_callback(*final(transfer)) == transfer_has_write_callback(*old(transfer)),
        transfer_has_read_callback(*final(transfer)) == transfer_has_read_callback(*old(transfer)),
        transfer_has_debug_callback(*final(transfer)) == transfer_has_debug_callback(*old(transfer)),
        transfer_has_header_callback(*final(transfer)) == transfer_has_header_callback(*old(transfer)),
        transfer_has_progress_callback(*final(transfer)) == transfer_has_progress_callback(*old(transfer)),
{
    transfer.seek_function(f)
}

/// Relies on `curl::easy::Transfer::debug_function`: it stores the callback
/// in the debug slot, touches no other slot, and always succeeds.
#[verifier::external_body]
pub(crate) fn set_debug_callback<'easy, 'data, F>(
    transfer: &mut curl::easy::Transfer<'easy, 'data>,
    f: F,
) -> (r: Result<(), curl::Error>)
    where
        F: FnMut(curl::easy::InfoType, &[u8]) + 'data,
    ensures
        r is Ok,
        transfer_has_debug_callback(*final(transfer)),
        transfer_has_write_callback(*final(transfer)) == transfer_has_write_callback(*old(transfer)),
        transfer_has_read_callback(*final(transfer)) == transfer_has_read_callback(*old(transfer)),
        transfer_has_seek_callback(*final(transfer)) == transfer_has_seek_callback(*old(transfer)),
        transfer_has_header_callback(*final(transfer)) == transfer_has_header_callback(*old(transfer)),
        transfer_has_progress_callback(*final(transfer)) == transfer_has_progress_callback(*old(transfer)),
{
    transfer.debug_function(f)
}

/// Relies on `curl::easy::Transfer::header_function`: it stores the callback
/// in the header slot, touches no other slot, and always succeeds.
#[verifier::external_body]
pub(crate) fn set_header_callback<'easy, 'data, F>(
    transfer: &mut curl::easy::Transfer<'easy, 'data>,
    f: F,
) -> (r: Result<(), curl::Error>)
    where
        F: FnMut(&[u8]) -> bool + 'data,
    ensures
        r is Ok,
        transfer_has_header_callback(*final(transfer)),
        transfer_has_write_callback(*final(transfer)) == transfer_has_write_callback(*old(transfer)),
        transfer_has_read_callback(*final(transfer)) == transfer_has_read_callback(*old(transfer)),
        transfer_has_seek_callback(*final(transfer)) == transfer_has_seek_callback(*old(transfer)),
        transfer_has_debug_callback(*final(transfer)) == transfer_has_debug_callback(*old(transfer)),
        transfer_has_progress_callback(*final(transfer)) == transfer_has_progress_callback(*old(transfer)),
{
    transfer.header_function(f)
}

/// The text that libcurl's `curl_easy_strerror` gives for a result code.
pub uninterp spec fn curl_description(code: u32) -> Seq<char>;

/// Relies on `curl::Error::code`: the libcurl result code the error wraps.
#[verifier::external_body]
pub(crate) fn error_code(e: &curl::Error) -> u32 {
    e.code()
}

/// Relies on `curl::Error::description`, which depends on the code alone.
#[verifier::external_body]
pub(crate) fn code_description(code: u32) -> (r: String)
    ensures
        r@ == curl_description(code),
{
    curl::Error::new(code).description().to_string()
}

} // verus!
