//! The builder for curl's `Easy` handle.
use vstd::prelude::*;

use std::time::Duration;

use curl::easy::{Easy, List};
use curl::easy::{IpResolve, ProxyType, SslVersion, TimeCondition};
use curl::easy::{ReadError, WriteError};

use crate::curl_api::{
    easy_has_read_callback,
    easy_has_write_callback,
    easy_verbose,
    easy_show_header,
    easy_progress,
    easy_signal,
    easy_wildcard_match,
    easy_fail_on_error,
    easy_url,
    easy_port,
    easy_proxy,
    easy_proxy_port,
    easy_proxy_type,
    easy_noproxy,
    easy_http_proxy_tunnel,
    easy_interface,
    easy_set_local_port,
    easy_local_port_range,
    easy_dns_cache_timeout,
    easy_buffer_size,
    easy_tcp_nodelay,
    easy_address_scope,
    easy_username,
    easy_password,
    easy_proxy_username,
    easy_proxy_password,
    easy_autoreferer,
    easy_accept_encoding,
    easy_transfer_encoding,
    easy_follow_location,
    easy_unrestricted_auth,
    easy_max_redirections,
    easy_put,
    easy_post,
    easy_post_fields_copy,
    easy_post_field_size,
    easy_referer,
    easy_useragent,
    easy_http_headers,
    easy_cookie,
    easy_cookie_session,
    easy_cookie_list,
    easy_get,
    easy_ignore_content_length,
    easy_http_content_decoding,
    easy_http_transfer_decoding,
    easy_range,
    easy_resume_from,
    easy_custom_request,
    easy_fetch_filetime,
    easy_nobody,
    easy_in_filesize,
    easy_upload,
    easy_max_filesize,
    easy_time_condition,
    easy_time_value,
    easy_timeout,
    easy_low_speed_limit,
    easy_low_speed_time,
    easy_max_send_speed,
    easy_max_recv_speed,
    easy_max_connects,
    easy_fresh_connect,
    easy_forbid_reuse,
    easy_connect_timeout,
    easy_ip_resolve,
    easy_connect_only,
    easy_ssl_cert_type,
    easy_ssl_key_type,
    easy_key_password,
    easy_ssl_engine,
    easy_ssl_engine_default,
    easy_ssl_version,
    easy_ssl_verify_host,
    easy_ssl_verify_peer,
    easy_certinfo,
    easy_ssl_cipher_list,
    easy_ssl_sessionid_cache,
};
use crate::errors::{report, one_failure_kept, setting_kept, BuildResult, Failures};

verus! {

/// Both callback slots of `after` are as they were in `before`.
pub open spec fn callbacks_kept(before: Easy, after: Easy) -> bool {
    easy_has_write_callback(after) == easy_has_write_callback(before)
        && easy_has_read_callback(after) == easy_has_read_callback(before)
}

/// The builder for `curl::easy::Easy`.
///
/// Each failure of a setting is kept, as libcurl's result code, and the
/// chain goes on; the failures are reported when `result` is called.
pub struct EasyBuilder {
    easy: Easy,
    errors: Failures,
}

impl View for EasyBuilder {
    /// The result codes of the settings that failed so far, oldest first.
    type V = Seq<u32>;

    closed spec fn view(&self) -> Seq<u32> {
        self.errors@
    }
}

impl EasyBuilder {
    /// The handle being configured.
    pub closed spec fn handle(&self) -> Easy {
        self.easy
    }

    /// Creates a builder around a fresh handle, with no failures and no
    /// callbacks.
    pub fn new() -> (r: EasyBuilder)
        ensures
            r@ == Seq::<u32>::empty(),
            !easy_has_write_callback(r.handle()),
            !easy_has_read_callback(r.handle()),
    {
        EasyBuilder { easy: Easy::new(), errors: Failures::new() }
    }

    /// Keeps the failure of a setting, if it failed.
    fn note(&mut self, outcome: Result<(), curl::Error>) -> (r: &mut EasyBuilder)
        ensures
            outcome is Ok ==> (*r)@ == old(self)@,
            outcome is Err ==> one_failure_kept(old(self)@, (*r)@),
            (*r).handle() == old(self).handle(),
            *final(self) == *final(r),
    {
        self.errors.note(outcome);
        self
    }

    // Each option setter hands its value to the handle and keeps the
    // failure, if any.

    pub fn verbose(&mut self, verbose: bool) -> (r: &mut EasyBuilder)
        ensures
            (*r)@ == old(self)@,
            easy_verbose((*r).handle()) == verbose,
            callbacks_kept(old(self).handle(), (*r).handle()),
            *final(self) == *final(r),
    {
        let outcome = self.easy.verbose(verbose);
        self.note(outcome)
    }

    pub fn show_header(&mut self, show: bool) -> (r: &mut EasyBuilder)
        ensures
            (*r)@ == old(self)@,
            easy_show_header((*r).handle()) == show,
            callbacks_kept(old(self).handle(), (*r).handle()),
            *final(self) == *final(r),
    {
        let outcome = self.easy.show_header(show);
        self.note(outcome)
    }

    pub fn progress(&mut self, progress: bool) -> (r: &mut EasyBuilder)
        ensures
            (*r)@ == old(self)@,
            easy_progress((*r).handle()) == progress,
            callbacks_kept(old(self).handle(), (*r).handle()),
            *final(self) == *final(r),
    {
        let outcome = self.easy.progress(progress);
        self.note(outcome)
    }

    pub fn signal(&mut self, signal: bool) -> (r: &mut EasyBuilder)
        ensures
            (*r)@ == old(self)@,
            easy_signal((*r).handle()) == signal,
            callbacks_kept(old(self).handle(), (*r).handle()),
            *final(self) == *final(r),
    {
        let outcome = self.easy.signal(signal);
        self.note(outcome)
    }

    pub fn wildcard_match(&mut self, m: bool) -> (r: &mut EasyBuilder)
        ensures
            ((*r)@ == old(self)@ && easy_wildcard_match((*r).handle()) == m)
                || one_failure_kept(old(self)@, (*r)@),
            callbacks_kept(old(self).handle(), (*r).handle()),
            *final(self) == *final(r),
    {
        let outcome = self.easy.wildcard_match(m);
        self.note(outcome)
    }

    pub fn fail_on_error(&mut self, fail: bool) -> (r: &mut EasyBuilder)
        ensures
            (*r)@ == old(self)@,
            easy_fail_on_error((*r).handle()) == fail,
            callbacks_kept(old(self).handle(), (*r).handle()),
            *final(self) == *final(r),
    {
        let outcome = self.easy.fail_on_error(fail);
        self.note(outcome)
    }

    pub fn url(&mut self, url: &str) -> (r: &mut EasyBuilder)
        ensures
            ((*r)@ == old(self)@ && easy_url((*r).handle()) == url@)
                || one_failure_kept(old(self)@, (*r)@),
            url@.contains('\0') ==> one_failure_kept(old(self)@, (*r)@),
            !url@.contains('\0') && url@.len() <= 2000000 ==> (*r)@ == old(self)@,
            callbacks_kept(old(self).handle(), (*r).handle()),
            *final(self) == *final(r),
    {
        let outcome = self.easy.url(url);
        self.note(outcome)
    }

    pub fn port(&mut self, port: u16) -> (r: &mut EasyBuilder)
        ensures
            ((*r)@ == old(self)@ && easy_port((*r).handle()) == port)
                || one_failure_kept(old(self)@, (*r)@),
            callbacks_kept(old(self).handle(), (*r).handle()),
            *final(self) == *final(r),
    {
        let outcome = self.easy.port(port);
        self.note(outcome)
    }

    pub fn proxy(&mut self, url: &str) -> (r: &mut EasyBuilder)
        ensures
            ((*r)@ == old(self)@ && easy_proxy((*r).handle()) == url@)
                || one_failure_kept(old(self)@, (*r)@),
            url@.contains('\0') ==> one_failure_kept(old(self)@, (*r)@),
            callbacks_kept(old(self).handle(), (*r).handle()),
            *final(self) == *final(r),
    {
        let outcome = self.easy.proxy(url);
        self.note(outcome)
    }

    pub fn proxy_port(&mut self, port: u16) -> (r: &mut EasyBuilder)
        ensures
            ((*r)@ == old(self)@ && easy_proxy_port((*r).handle()) == port)
                || one_failure_kept(old(self)@, (*r)@),
            callbacks_kept(old(self).handle(), (*r).handle()),
            *final(self) == *final(r),
    {
        let outcome = self.easy.proxy_port(port);
        self.note(outcome)
    }

    pub fn proxy_type(&mut self, kind: ProxyType) -> (r: &mut EasyBuilder)
        ensures
            ((*r)@ == old(self)@ && easy_proxy_type((*r).handle()) == kind)
                || one_failure_kept(old(self)@, (*r)@),
            callbacks_kept(old(self).handle(), (*r).handle()),
            *final(self) == *final(r),
    {
        let outcome = self.easy.proxy_type(kind);
        self.note(outcome)
    }

    pub fn noproxy(&mut self, skip: &str) -> (r: &mut EasyBuilder)
        ensures
            ((*r)@ == old(self)@ && easy_noproxy((*r).handle()) == skip@)
                || one_failure_kept(old(self)@, (*r)@),
            skip@.contains('\0') ==> one_failure_kept(old(self)@, (*r)@),
            callbacks_kept(old(self).handle(), (*r).handle()),
            *final(self) == *final(r),
    {
        let outcome = self.easy.noproxy(skip);
        self.note(outcome)
    }

    pub fn http_proxy_tunnel(&mut self, tunnel: bool) -> (r: &mut EasyBuilder)
        ensures
            (*r)@ == old(self)@,
            easy_http_proxy_tunnel((*r).handle()) == tunnel,
            callbacks_kept(old(self).handle(), (*r).handle()),
            *final(self) == *final(r),
    {
        let outcome = self.easy.http_proxy_tunnel(tunnel);
        self.note(outcome)
    }

    pub fn interface(&mut self, interface: &str) -> (r: &mut EasyBuilder)
        ensures
            ((*r)@ == old(self)@ && easy_interface((*r).handle()) == interface@)
                || one_failure_kept(old(self)@, (*r)@),
            interface@.contains('\0') ==> one_failure_kept(old(self)@, (*r)@),
            callbacks_kept(old(self).handle(), (*r).handle()),
            *final(self) == *final(r),
    {
        let outcome = self.easy.interface(interface);
        self.note(outcome)
    }

    pub fn set_local_port(&mut self, port: u16) -> (r: &mut EasyBuilder)
        ensures
            ((*r)@ == old(self)@ && easy_set_local_port((*r).handle()) == port)
                || one_failure_kept(old(self)@, (*r)@),
            callbacks_kept(old(self).handle(), (*r).handle()),
            *final(self) == *final(r),
    {
        let outcome = self.easy.set_local_port(port);
        self.note(outcome)
    }

    pub fn local_port_range(&mut self, range: u16) -> (r: &mut EasyBuilder)
        ensures
            ((*r)@ == old(self)@ && easy_local_port_range((*r).handle()) == range)
                || one_failure_kept(old(self)@, (*r)@),
            callbacks_kept(old(self).handle(), (*r).handle()),
            *final(self) == *final(r),
    {
        let outcome = self.easy.local_port_range(range);
        self.note(outcome)
    }

    pub fn dns_cache_timeout(&mut self, dur: Duration) -> (r: &mut EasyBuilder)
        ensures
            ((*r)@ == old(self)@ && easy_dns_cache_timeout((*r).handle()) == dur)
                || one_failure_kept(old(self)@, (*r)@),
            callbacks_kept(old(self).handle(), (*r).handle()),
            *final(self) == *final(r),
    {
        let outcome = self.easy.dns_cache_timeout(dur);
        self.note(outcome)
    }

    pub fn buffer_size(&mut self, size: usize) -> (r: &mut EasyBuilder)
        ensures
            ((*r)@ == old(self)@ && easy_buffer_size((*r).handle()) == size)
                || one_failure_kept(old(self)@, (*r)@),
            callbacks_kept(old(self).handle(), (*r).handle()),
            *final(self) == *final(r),
    {
        let outcome = self.easy.buffer_size(size);
        self.note(outcome)
    }

    pub fn tcp_nodelay(&mut self, enable: bool) -> (r: &mut EasyBuilder)
        ensures
            (*r)@ == old(self)@,
            easy_tcp_nodelay((*r).handle()) == enable,
            callbacks_kept(old(self).handle(), (*r).handle()),
            *final(self) == *final(r),
    {
        let outcome = self.easy.tcp_nodelay(enable);
        self.note(outcome)
    }

    pub fn address_scope(&mut self, scope: u32) -> (r: &mut EasyBuilder)
        ensures
            ((*r)@ == old(self)@ && easy_address_scope((*r).handle()) == scope)
                || one_failure_kept(old(self)@, (*r)@),
            callbacks_kept(old(self).handle(), (*r).handle()),
            *final(self) == *final(r),
    {
        let outcome = self.easy.address_scope(scope);
        self.note(outcome)
    }

    pub fn username(&mut self, user: &str) -> (r: &mut EasyBuilder)
        ensures
            ((*r)@ == old(self)@ && easy_username((*r).handle()) == user@)
                || one_failure_kept(old(self)@, (*r)@),
            user@.contains('\0') ==> one_failure_kept(old(self)@, (*r)@),
            callbacks_kept(old(self).handle(), (*r).handle()),
            *final(self) == *final(r),
    {
        let outcome = self.easy.username(user);
        self.note(outcome)
    }

    pub fn password(&mut self, pass: &str) -> (r: &mut EasyBuilder)
        ensures
            ((*r)@ == old(self)@ && easy_password((*r).handle()) == pass@)
                || one_failure_kept(old(self)@, (*r)@),
            pass@.contains('\0') ==> one_failure_kept(old(self)@, (*r)@),
            callbacks_kept(old(self).handle(), (*r).handle()),
            *final(self) == *final(r),
    {
        let outcome = self.easy.password(pass);
        self.note(outcome)
    }

    pub fn proxy_username(&mut self, user: &str) -> (r: &mut EasyBuilder)
        ensures
            ((*r)@ == old(self)@ && easy_proxy_username((*r).handle()) == user@)
                || one_failure_kept(old(self)@, (*r)@),
            user@.contains('\0') ==> one_failure_kept(old(self)@, (*r)@),
            callbacks_kept(old(self).handle(), (*r).handle()),
            *final(self) == *final(r),
    {
        let outcome = self.easy.proxy_username(user);
        self.note(outcome)
    }

    pub fn proxy_password(&mut self, pass: &str) -> (r: &mut EasyBuilder)
        ensures
            ((*r)@ == old(self)@ && easy_proxy_password((*r).handle()) == pass@)
                || one_failure_kept(old(self)@, (*r)@),
            pass@.contains('\0') ==> one_failure_kept(old(self)@, (*r)@),
            callbacks_kept(old(self).handle(), (*r).handle()),
            *final(self) == *final(r),
    {
        let outcome = self.easy.proxy_password(pass);
        self.note(outcome)
    }

    pub fn autoreferer(&mut self, enable: bool) -> (r: &mut EasyBuilder)
        ensures
            (*r)@ == old(self)@,
            easy_autoreferer((*r).handle()) == enable,
            callbacks_kept(old(self).handle(), (*r).handle()),
            *final(self) == *final(r),
    {
        let outcome = self.easy.autoreferer(enable);
        self.note(outcome)
    }

    pub fn accept_encoding(&mut self, encoding: &str) -> (r: &mut EasyBuilder)
        ensures
            ((*r)@ == old(self)@ && easy_accept_encoding((*r).handle()) == encoding@)
                || one_failure_kept(old(self)@, (*r)@),
            encoding@.contains('\0') ==> one_failure_kept(old(self)@, (*r)@),
            callbacks_kept(old(self).handle(), (*r).handle()),
            *final(self) == *final(r),
    {
        let outcome = self.easy.accept_encoding(encoding);
        self.note(outcome)
    }

    pub fn transfer_encoding(&mut self, enable: bool) -> (r: &mut EasyBuilder)
        ensures
            (*r)@ == old(self)@,
            easy_transfer_encoding((*r).handle()) == enable,
            callbacks_kept(old(self).handle(), (*r).handle()),
            *final(self) == *final(r),
    {
        let outcome = self.easy.transfer_encoding(enable);
        self.note(outcome)
    }

    pub fn follow_location(&mut self, enable: bool) -> (r: &mut EasyBuilder)
        ensures
            ((*r)@ == old(self)@ && easy_follow_location((*r).handle()) == enable)
                || one_failure_kept(old(self)@, (*r)@),
            callbacks_kept(old(self).handle(), (*r).handle()),
            *final(self) == *final(r),
    {
        let outcome = self.easy.follow_location(enable);
        self.note(outcome)
    }

    pub fn unrestricted_auth(&mut self, enable: bool) -> (r: &mut EasyBuilder)
        ensures
            (*r)@ == old(self)@,
            easy_unrestricted_auth((*r).handle()) == enable,
            callbacks_kept(old(self).handle(), (*r).handle()),
            *final(self) == *final(r),
    {
        let outcome = self.easy.unrestricted_auth(enable);
        self.note(outcome)
    }

    pub fn max_redirections(&mut self, max: u32) -> (r: &mut EasyBuilder)
        ensures
            ((*r)@ == old(self)@ && easy_max_redirections((*r).handle()) == max)
                || one_failure_kept(old(self)@, (*r)@),
            callbacks_kept(old(self).handle(), (*r).handle()),
            *final(self) == *final(r),
    {
        let outcome = self.easy.max_redirections(max);
        self.note(outcome)
    }

    pub fn put(&mut self, enable: bool) -> (r: &mut EasyBuilder)
        ensures
            (*r)@ == old(self)@,
            easy_put((*r).handle()) == enable,
            callbacks_kept(old(self).handle(), (*r).handle()),
            *final(self) == *final(r),
    {
        let outcome = self.easy.put(enable);
        self.note(outcome)
    }

    pub fn post(&mut self, enable: bool) -> (r: &mut EasyBuilder)
        ensures
            (*r)@ == old(self)@,
            easy_post((*r).handle()) == enable,
            callbacks_kept(old(self).handle(), (*r).handle()),
            *final(self) == *final(r),
    {
        let outcome = self.easy.post(enable);
        self.note(outcome)
    }

    pub fn post_fields_copy(&mut self, data: &[u8]) -> (r: &mut EasyBuilder)
        ensures
            (*r)@ == old(self)@,
            easy_post_fields_copy((*r).handle()) == data@,
            callbacks_kept(old(self).handle(), (*r).handle()),
            *final(self) == *final(r),
    {
        let outcome = self.easy.post_fields_copy(data);
        self.note(outcome)
    }

    pub fn post_field_size(&mut self, size: u64) -> (r: &mut EasyBuilder)
        ensures
            ((*r)@ == old(self)@ && easy_post_field_size((*r).handle()) == size)
                || one_failure_kept(old(self)@, (*r)@),
            callbacks_kept(old(self).handle(), (*r).handle()),
            *final(self) == *final(r),
    {
        let outcome = self.easy.post_field_size(size);
        self.note(outcome)
    }

    pub fn referer(&mut self, referer: &str) -> (r: &mut EasyBuilder)
        ensures
            ((*r)@ == old(self)@ && easy_referer((*r).handle()) == referer@)
                || one_failure_kept(old(self)@, (*r)@),
            referer@.contains('\0') ==> one_failure_kept(old(self)@, (*r)@),
            callbacks_kept(old(self).handle(), (*r).handle()),
            *final(self) == *final(r),
    {
        let outcome = self.easy.referer(referer);
        self.note(outcome)
    }

    pub fn useragent(&mut self, useragent: &str) -> (r: &mut EasyBuilder)
        ensures
            ((*r)@ == old(self)@ && easy_useragent((*r).handle()) == useragent@)
                || one_failure_kept(old(self)@, (*r)@),
            useragent@.contains('\0') ==> one_failure_kept(old(self)@, (*r)@),
            callbacks_kept(old(self).handle(), (*r).handle()),
            *final(self) == *final(r),
    {
        let outcome = self.easy.useragent(useragent);
        self.note(outcome)
    }

    pub fn http_headers(&mut self, list: List) -> (r: &mut EasyBuilder)
        ensures
            ((*r)@ == old(self)@ && easy_http_headers((*r).handle()) == list)
                || one_failure_kept(old(self)@, (*r)@),
            callbacks_kept(old(self).handle(), (*r).handle()),
            *final(self) == *final(r),
    {
        let outcome = self.easy.http_headers(list);
        self.note(outcome)
    }

    pub fn cookie(&mut self, cookie: &str) -> (r: &mut EasyBuilder)
        ensures
            ((*r)@ == old(self)@ && easy_cookie((*r).handle()) == cookie@)
                || one_failure_kept(old(self)@, (*r)@),
            cookie@.contains('\0') ==> one_failure_kept(old(self)@, (*r)@),
            callbacks_kept(old(self).handle(), (*r).handle()),
            *final(self) == *final(r),
    {
        let outcome = self.easy.cookie(cookie);
        self.note(outcome)
    }

    pub fn cookie_file<P: AsRef<std::path::Path>>(&mut self, file: P) -> (r: &mut EasyBuilder)
        ensures
            setting_kept(old(self)@, (*r)@),
            callbacks_kept(old(self).handle(), (*r).handle()),
            *final(self) == *final(r),
    {
        let outcome = self.easy.cookie_file(file);
        self.note(outcome)
    }

    pub fn cookie_jar<P: AsRef<std::path::Path>>(&mut self, file: P) -> (r: &mut EasyBuilder)
        ensures
            setting_kept(old(self)@, (*r)@),
            callbacks_kept(old(self).handle(), (*r).handle()),
            *final(self) == *final(r),
    {
        let outcome = self.easy.cookie_jar(file);
        self.note(outcome)
    }

    pub fn cookie_session(&mut self, session: bool) -> (r: &mut EasyBuilder)
        ensures
            ((*r)@ == old(self)@ && easy_cookie_session((*r).handle()) == session)
                || one_failure_kept(old(self)@, (*r)@),
            callbacks_kept(old(self).handle(), (*r).handle()),
            *final(self) == *final(r),
    {
        let outcome = self.easy.cookie_session(session);
        self.note(outcome)
    }

    pub fn cookie_list(&mut self, cookie: &str) -> (r: &mut EasyBuilder)
        ensures
            ((*r)@ == old(self)@ && easy_cookie_list((*r).handle()) == cookie@)
                || one_failure_kept(old(self)@, (*r)@),
            cookie@.contains('\0') ==> one_failure_kept(old(self)@, (*r)@),
            callbacks_kept(old(self).handle(), (*r).handle()),
            *final(self) == *final(r),
    {
        let outcome = self.easy.cookie_list(cookie);
        self.note(outcome)
    }

    pub fn get(&mut self, enable: bool) -> (r: &mut EasyBuilder)
        ensures
            (*r)@ == old(self)@,
            easy_get((*r).handle()) == enable,
            callbacks_kept(old(self).handle(), (*r).handle()),
            *final(self) == *final(r),
    {
        let outcome = self.easy.get(enable);
        self.note(outcome)
    }

    pub fn ignore_content_length(&mut self, ignore: bool) -> (r: &mut EasyBuilder)
        ensures
            (*r)@ == old(self)@,
            easy_ignore_content_length((*r).handle()) == ignore,
            callbacks_kept(old(self).handle(), (*r).handle()),
            *final(self) == *final(r),
    {
        let outcome = self.easy.ignore_content_length(ignore);
        self.note(outcome)
    }

    pub fn http_content_decoding(&mut self, enable: bool) -> (r: &mut EasyBuilder)
        ensures
            (*r)@ == old(self)@,
            easy_http_content_decoding((*r).handle()) == enable,
            callbacks_kept(old(self).handle(), (*r).handle()),
            *final(self) == *final(r),
    {
        let outcome = self.easy.http_content_decoding(enable);
        self.note(outcome)
    }

    pub fn http_transfer_decoding(&mut self, enable: bool) -> (r: &mut EasyBuilder)
        ensures
            (*r)@ == old(self)@,
            easy_http_transfer_decoding((*r).handle()) == enable,
            callbacks_kept(old(self).handle(), (*r).handle()),
            *final(self) == *final(r),
    {
        let outcome = self.easy.http_transfer_decoding(enable);
        self.note(outcome)
    }

    pub fn range(&mut self, range: &str) -> (r: &mut EasyBuilder)
        ensures
            ((*r)@ == old(self)@ && easy_range((*r).handle()) == range@)
                || one_failure_kept(old(self)@, (*r)@),
            range@.contains('\0') ==> one_failure_kept(old(self)@, (*r)@),
            callbacks_kept(old(self).handle(), (*r).handle()),
            *final(self) == *final(r),
    {
        let outcome = self.easy.range(range);
        self.note(outcome)
    }

    pub fn resume_from(&mut self, from: u64) -> (r: &mut EasyBuilder)
        ensures
            ((*r)@ == old(self)@ && easy_resume_from((*r).handle()) == from)
                || one_failure_kept(old(self)@, (*r)@),
            callbacks_kept(old(self).handle(), (*r).handle()),
            *final(self) == *final(r),
    {
        let outcome = self.easy.resume_from(from);
        self.note(outcome)
    }

    pub fn custom_request(&mut self, request: &str) -> (r: &mut EasyBuilder)
        ensures
            ((*r)@ == old(self)@ && easy_custom_request((*r).handle()) == request@)
                || one_failure_kept(old(self)@, (*r)@),
            request@.contains('\0') ==> one_failure_kept(old(self)@, (*r)@),
            callbacks_kept(old(self).handle(), (*r).handle()),
            *final(self) == *final(r),
    {
        let outcome = self.easy.custom_request(request);
        self.note(outcome)
    }

    pub fn fetch_filetime(&mut self, fetch: bool) -> (r: &mut EasyBuilder)
        ensures
            (*r)@ == old(self)@,
            easy_fetch_filetime((*r).handle()) == fetch,
            callbacks_kept(old(self).handle(), (*r).handle()),
            *final(self) == *final(r),
    {
        let outcome = self.easy.fetch_filetime(fetch);
        self.note(outcome)
    }

    pub fn nobody(&mut self, enable: bool) -> (r: &mut EasyBuilder)
        ensures
            (*r)@ == old(self)@,
            easy_nobody((*r).handle()) == enable,
            callbacks_kept(old(self).handle(), (*r).handle()),
            *final(self) == *final(r),
    {
        let outcome = self.easy.nobody(enable);
        self.note(outcome)
    }

    pub fn in_filesize(&mut self, size: u64) -> (r: &mut EasyBuilder)
        ensures
            ((*r)@ == old(self)@ && easy_in_filesize((*r).handle()) == size)
                || one_failure_kept(old(self)@, (*r)@),
            callbacks_kept(old(self).handle(), (*r).handle()),
            *final(self) == *final(r),
    {
        let outcome = self.easy.in_filesize(size);
        self.note(outcome)
    }

    pub fn upload(&mut self, enable: bool) -> (r: &mut EasyBuilder)
        ensures
            (*r)@ == old(self)@,
            easy_upload((*r).handle()) == enable,
            callbacks_kept(old(self).handle(), (*r).handle()),
            *final(self) == *final(r),
    {
        let outcome = self.easy.upload(enable);
        self.note(outcome)
    }

    pub fn max_filesize(&mut self, size: u64) -> (r: &mut EasyBuilder)
        ensures
            ((*r)@ == old(self)@ && easy_max_filesize((*r).handle()) == size)
                || one_failure_kept(old(self)@, (*r)@),
            callbacks_kept(old(self).handle(), (*r).handle()),
            *final(self) == *final(r),
    {
        let outcome = self.easy.max_filesize(size);
        self.note(outcome)
    }

    pub fn time_condition(&mut self, cond: TimeCondition) -> (r: &mut EasyBuilder)
        ensures
            ((*r)@ == old(self)@ && easy_time_condition((*r).handle()) == cond)
                || one_failure_kept(old(self)@, (*r)@),
            callbacks_kept(old(self).handle(), (*r).handle()),
            *final(self) == *final(r),
    {
        let outcome = self.easy.time_condition(cond);
        self.note(outcome)
    }

    pub fn time_value(&mut self, val: i64) -> (r: &mut EasyBuilder)
        ensures
            ((*r)@ == old(self)@ && easy_time_value((*r).handle()) == val)
                || one_failure_kept(old(self)@, (*r)@),
            callbacks_kept(old(self).handle(), (*r).handle()),
            *final(self) == *final(r),
    {
        let outcome = self.easy.time_value(val);
        self.note(outcome)
    }

    pub fn timeout(&mut self, timeout: Duration) -> (r: &mut EasyBuilder)
        ensures
            ((*r)@ == old(self)@ && easy_timeout((*r).handle()) == timeout)
                || one_failure_kept(old(self)@, (*r)@),
            callbacks_kept(old(self).handle(), (*r).handle()),
            *final(self) == *final(r),
    {
        let outcome = self.easy.timeout(timeout);
        self.note(outcome)
    }

    pub fn low_speed_limit(&mut self, limit: u32) -> (r: &mut EasyBuilder)
        ensures
            ((*r)@ == old(self)@ && easy_low_speed_limit((*r).handle()) == limit)
                || one_failure_kept(old(self)@, (*r)@),
            callbacks_kept(old(self).handle(), (*r).handle()),
            *final(self) == *final(r),
    {
        let outcome = self.easy.low_speed_limit(limit);
        self.note(outcome)
    }

    pub fn low_speed_time(&mut self, dur: Duration) -> (r: &mut EasyBuilder)
        ensures
            ((*r)@ == old(self)@ && easy_low_speed_time((*r).handle()) == dur)
                || one_failure_kept(old(self)@, (*r)@),
            callbacks_kept(old(self).handle(), (*r).handle()),
            *final(self) == *final(r),
    {
        let outcome = self.easy.low_speed_time(dur);
        self.note(outcome)
    }

    pub fn max_send_speed(&mut self, speed: u64) -> (r: &mut EasyBuilder)
        ensures
            ((*r)@ == old(self)@ && easy_max_send_speed((*r).handle()) == speed)
                || one_failure_kept(old(self)@, (*r)@),
            callbacks_kept(old(self).handle(), (*r).handle()),
            *final(self) == *final(r),
    {
        let outcome = self.easy.max_send_speed(speed);
        self.note(outcome)
    }

    pub fn max_recv_speed(&mut self, speed: u64) -> (r: &mut EasyBuilder)
        ensures
            ((*r)@ == old(self)@ && easy_max_recv_speed((*r).handle()) == speed)
                || one_failure_kept(old(self)@, (*r)@),
            callbacks_kept(old(self).handle(), (*r).handle()),
            *final(self) == *final(r),
    {
        let outcome = self.easy.max_recv_speed(speed);
        self.note(outcome)
    }

    pub fn max_connects(&mut self, max: u32) -> (r: &mut EasyBuilder)
        ensures
            ((*r)@ == old(self)@ && easy_max_connects((*r).handle()) == max)
                || one_failure_kept(old(self)@, (*r)@),
            callbacks_kept(old(self).handle(), (*r).handle()),
            *final(self) == *final(r),
    {
        let outcome = self.easy.max_connects(max);
        self.note(outcome)
    }

    pub fn fresh_connect(&mut self, enable: bool) -> (r: &mut EasyBuilder)
        ensures
            (*r)@ == old(self)@,
            easy_fresh_connect((*r).handle()) == enable,
            callbacks_kept(old(self).handle(), (*r).handle()),
            *final(self) == *final(r),
    {
        let outcome = self.easy.fresh_connect(enable);
        self.note(outcome)
    }

    pub fn forbid_reuse(&mut self, enable: bool) -> (r: &mut EasyBuilder)
        ensures
            (*r)@ == old(self)@,
            easy_forbid_reuse((*r).handle()) == enable,
            callbacks_kept(old(self).handle(), (*r).handle()),
            *final(self) == *final(r),
    {
        let outcome = self.easy.forbid_reuse(enable);
        self.note(outcome)
    }

    pub fn connect_timeout(&mut self, timeout: Duration) -> (r: &mut EasyBuilder)
        ensures
            ((*r)@ == old(self)@ && easy_connect_timeout((*r).handle()) == timeout)
                || one_failure_kept(old(self)@, (*r)@),
            callbacks_kept(old(self).handle(), (*r).handle()),
            *final(self) == *final(r),
    {
        let outcome = self.easy.connect_timeout(timeout);
        self.note(outcome)
    }

    pub fn ip_resolve(&mut self, resolve: IpResolve) -> (r: &mut EasyBuilder)
        ensures
            ((*r)@ == old(self)@ && easy_ip_resolve((*r).handle()) == resolve)
                || one_failure_kept(old(self)@, (*r)@),
            callbacks_kept(old(self).handle(), (*r).handle()),
            *final(self) == *final(r),
    {
        let outcome = self.easy.ip_resolve(resolve);
        self.note(outcome)
    }

    pub fn connect_only(&mut self, enable: bool) -> (r: &mut EasyBuilder)
        ensures
            ((*r)@ == old(self)@ && easy_connect_only((*r).handle()) == enable)
                || one_failure_kept(old(self)@, (*r)@),
            callbacks_kept(old(self).handle(), (*r).handle()),
            *final(self) == *final(r),
    {
        let outcome = self.easy.connect_only(enable);
        self.note(outcome)
    }

    pub fn ssl_cert<P: AsRef<std::path::Path>>(&mut self, cert: P) -> (r: &mut EasyBuilder)
        ensures
            setting_kept(old(self)@, (*r)@),
            callbacks_kept(old(self).handle(), (*r).handle()),
            *final(self) == *final(r),
    {
        let outcome = self.easy.ssl_cert(cert);
        self.note(outcome)
    }

    pub fn ssl_cert_type(&mut self, kind: &str) -> (r: &mut EasyBuilder)
        ensures
            ((*r)@ == old(self)@ && easy_ssl_cert_type((*r).handle()) == kind@)
                || one_failure_kept(old(self)@, (*r)@),
            kind@.contains('\0') ==> one_failure_kept(old(self)@, (*r)@),
            callbacks_kept(old(self).handle(), (*r).handle()),
            *final(self) == *final(r),
    {
        let outcome = self.easy.ssl_cert_type(kind);
        self.note(outcome)
    }

    pub fn ssl_key<P: AsRef<std::path::Path>>(&mut self, key: P) -> (r: &mut EasyBuilder)
        ensures
            setting_kept(old(self)@, (*r)@),
            callbacks_kept(old(self).handle(), (*r).handle()),
            *final(self) == *final(r),
    {
        let outcome = self.easy.ssl_key(key);
        self.note(outcome)
    }

    pub fn ssl_key_type(&mut self, kind: &str) -> (r: &mut EasyBuilder)
        ensures
            ((*r)@ == old(self)@ && easy_ssl_key_type((*r).handle()) == kind@)
                || one_failure_kept(old(self)@, (*r)@),
            kind@.contains('\0') ==> one_failure_kept(old(self)@, (*r)@),
            callbacks_kept(old(self).handle(), (*r).handle()),
            *final(self) == *final(r),
    {
        let outcome = self.easy.ssl_key_type(kind);
        self.note(outcome)
    }

    pub fn key_password(&mut self, password: &str) -> (r: &mut EasyBuilder)
        ensures
            ((*r)@ == old(self)@ && easy_key_password((*r).handle()) == password@)
                || one_failure_kept(old(self)@, (*r)@),
            password@.contains('\0') ==> one_failure_kept(old(self)@, (*r)@),
            callbacks_kept(old(self).handle(), (*r).handle()),
            *final(self) == *final(r),
    {
        let outcome = self.easy.key_password(password);
        self.note(outcome)
    }

    pub fn ssl_engine(&mut self, engine: &str) -> (r: &mut EasyBuilder)
        ensures
            ((*r)@ == old(self)@ && easy_ssl_engine((*r).handle()) == engine@)
                || one_failure_kept(old(self)@, (*r)@),
            engine@.contains('\0') ==> one_failure_kept(old(self)@, (*r)@),
            callbacks_kept(old(self).handle(), (*r).handle()),
            *final(self) == *final(r),
    {
        let outcome = self.easy.ssl_engine(engine);
        self.note(outcome)
    }

    pub fn ssl_engine_default(&mut self, enable: bool) -> (r: &mut EasyBuilder)
        ensures
            ((*r)@ == old(self)@ && easy_ssl_engine_default((*r).handle()) == enable)
                || one_failure_kept(old(self)@, (*r)@),
            callbacks_kept(old(self).handle(), (*r).handle()),
            *final(self) == *final(r),
    {
        let outcome = self.easy.ssl_engine_default(enable);
        self.note(outcome)
    }

    pub fn ssl_version(&mut self, version: SslVersion) -> (r: &mut EasyBuilder)
        ensures
            ((*r)@ == old(self)@ && easy_ssl_version((*r).handle()) == version)
                || one_failure_kept(old(self)@, (*r)@),
            callbacks_kept(old(self).handle(), (*r).handle()),
            *final(self) == *final(r),
    {
        let outcome = self.easy.ssl_version(version);
        self.note(outcome)
    }

    pub fn ssl_verify_host(&mut self, verify: bool) -> (r: &mut EasyBuilder)
        ensures
            (*r)@ == old(self)@,
            easy_ssl_verify_host((*r).handle()) == verify,
            callbacks_kept(old(self).handle(), (*r).handle()),
            *final(self) == *final(r),
    {
        let outcome = self.easy.ssl_verify_host(verify);
        self.note(outcome)
    }

    pub fn ssl_verify_peer(&mut self, verify: bool) -> (r: &mut EasyBuilder)
        ensures
            (*r)@ == old(self)@,
            easy_ssl_verify_peer((*r).handle()) == verify,
            callbacks_kept(old(self).handle(), (*r).handle()),
            *final(self) == *final(r),
    {
        let outcome = self.easy.ssl_verify_peer(verify);
        self.note(outcome)
    }

    pub fn cainfo<P: AsRef<std::path::Path>>(&mut self, path: P) -> (r: &mut EasyBuilder)
        ensures
            setting_kept(old(self)@, (*r)@),
            callbacks_kept(old(self).handle(), (*r).handle()),
            *final(self) == *final(r),
    {
        let outcome = self.easy.cainfo(path);
        self.note(outcome)
    }

    pub fn issuer_cert<P: AsRef<std::path::Path>>(&mut self, path: P) -> (r: &mut EasyBuilder)
        ensures
            setting_kept(old(self)@, (*r)@),
            callbacks_kept(old(self).handle(), (*r).handle()),
            *final(self) == *final(r),
    {
        let outcome = self.easy.issuer_cert(path);
        self.note(outcome)
    }

    pub fn capath<P: AsRef<std::path::Path>>(&mut self, path: P) -> (r: &mut EasyBuilder)
        ensures
            setting_kept(old(self)@, (*r)@),
            callbacks_kept(old(self).handle(), (*r).handle()),
            *final(self) == *final(r),
    {
        let outcome = self.easy.capath(path);
        self.note(outcome)
    }

    pub fn crlfile<P: AsRef<std::path::Path>>(&mut self, path: P) -> (r: &mut EasyBuilder)
        ensures
            setting_kept(old(self)@, (*r)@),
            callbacks_kept(old(self).handle(), (*r).handle()),
            *final(self) == *final(r),
    {
        let outcome = self.easy.crlfile(path);
        self.note(outcome)
    }

    pub fn certinfo(&mut self, enable: bool) -> (r: &mut EasyBuilder)
        ensures
            ((*r)@ == old(self)@ && easy_certinfo((*r).handle()) == enable)
                || one_failure_kept(old(self)@, (*r)@),
            callbacks_kept(old(self).handle(), (*r).handle()),
            *final(self) == *final(r),
    {
        let outcome = self.easy.certinfo(enable);
        self.note(outcome)
    }

    pub fn random_file<P: AsRef<std::path::Path>>(&mut self, p: P) -> (r: &mut EasyBuilder)
        ensures
            setting_kept(old(self)@, (*r)@),
            callbacks_kept(old(self).handle(), (*r).handle()),
            *final(self) == *final(r),
    {
        let outcome = self.easy.random_file(p);
        self.note(outcome)
    }

    pub fn egd_socket<P: AsRef<std::path::Path>>(&mut self, p: P) -> (r: &mut EasyBuilder)
        ensures
            setting_kept(old(self)@, (*r)@),
            callbacks_kept(old(self).handle(), (*r).handle()),
            *final(self) == *final(r),
    {
        let outcome = self.easy.egd_socket(p);
        self.note(outcome)
    }

    pub fn ssl_cipher_list(&mut self, ciphers: &str) -> (r: &mut EasyBuilder)
        ensures
            ((*r)@ == old(self)@ && easy_ssl_cipher_list((*r).handle()) == ciphers@)
                || one_failure_kept(old(self)@, (*r)@),
            ciphers@.contains('\0') ==> one_failure_kept(old(self)@, (*r)@),
            callbacks_kept(old(self).handle(), (*r).handle()),
            *final(self) == *final(r),
    {
        let outcome = self.easy.ssl_cipher_list(ciphers);
        self.note(outcome)
    }

    pub fn ssl_sessionid_cache(&mut self, enable: bool) -> (r: &mut EasyBuilder)
        ensures
            (*r)@ == old(self)@,
            easy_ssl_sessionid_cache((*r).handle()) == enable,
            callbacks_kept(old(self).handle(), (*r).handle()),
            *final(self) == *final(r),
    {
        let outcome = self.easy.ssl_sessionid_cache(enable);
        self.note(outcome)
    }

    /// Installs the callback that receives downloaded data.
    pub fn write_function<F>(&mut self, f: F) -> (r: &mut EasyBuilder)
        where
            F: FnMut(&[u8]) -> Result<usize, WriteError> + Send + 'static,
        ensures
            (*r)@ == old(self)@,
            easy_has_write_callback((*r).handle()),
            easy_has_read_callback((*r).handle()) == easy_has_read_callback(old(self).handle()),
            *final(self) == *final(r),
    {
        let outcome = self.easy.write_function(f);
        self.note(outcome)
    }

    /// Installs the callback that supplies data to upload.
    pub fn read_function<F>(&mut self, f: F) -> (r: &mut EasyBuilder)
        where
            F: FnMut(&mut [u8]) -> Result<usize, ReadError> + Send + 'static,
        ensures
            (*r)@ == old(self)@,
            easy_has_read_callback((*r).handle()),
            easy_has_write_callback((*r).handle()) == easy_has_write_callback(old(self).handle()),
            *final(self) == *final(r),
    {
        let outcome = self.easy.read_function(f);
        self.note(outcome)
    }

    /// Tells whether any setting has failed so far.
    pub fn has_errors(&self) -> (r: bool)
        ensures
            r == (self@.len() > 0),
    {
        !self.errors.is_empty()
    }

    /// Finishes the builder: the handle if every setting succeeded, else an
    /// error whose text describes each failure on a line of its own.
    pub fn result(&mut self) -> (r: BuildResult<&mut Easy>)
        ensures
            r is Ok <==> old(self)@.len() == 0,
            r matches Ok(h) ==> *h == old(self).handle() && final(self).handle() == *final(h)
                && final(self)@ == old(self)@,
            r matches Err(e) ==> e.text() == report(old(self)@) && *final(self) == *old(self),
    {
        if !self.has_errors() {
            Ok(&mut self.easy)
        } else {
            Err(self.errors.to_error())
        }
    }
}

} // verus!
