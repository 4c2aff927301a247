//! The server's routes and the URLs built from them, together with the
//! mapping from a response status code to the library's error type.
use crate::err_tools::ErrorX;
use crate::text::{i64_to_string, int_chars};
use vstd::prelude::*;

verus! {

pub enum Routes {
    Login,
    Logout,
    AddNetherPortalText,
    UpdateNetherPortalText,
    SaveImageText,
    SaveImage,
    DeleteImage,
    DeleteClientImage,
    GetNetherPortalBunch,
    GetNetherPortalImageNames,
    GetNetherPortalImage,
    AccessRights,
    SessionTimeLeft,
    EstimatedAmountNetherPortals,
}

/// The path each route stands for.
pub open spec fn route_path(r: Routes) -> Seq<char> {
    match r {
        Routes::Login => "/login"@,
        Routes::Logout => "/logout"@,
        Routes::AddNetherPortalText => "/addnetherportaltext"@,
        Routes::UpdateNetherPortalText => "/savenetherportaltextchanges"@,
        Routes::SaveImageText => "/addnetherportalimagedetails"@,
        Routes::SaveImage => "/saveimage"@,
        Routes::DeleteImage => "/deleteimage"@,
        Routes::DeleteClientImage => "/deleteimagefromclient"@,
        Routes::GetNetherPortalBunch => "/getnetherportalstextinformation"@,
        Routes::GetNetherPortalImage => "/getnetherportalimage"@,
        Routes::GetNetherPortalImageNames => "/getnetherportalimagenames"@,
        Routes::AccessRights => "/getaccessrights"@,
        Routes::SessionTimeLeft => "/sessiontimeleft"@,
        Routes::EstimatedAmountNetherPortals => "/netherportalsestimatedamount"@,
    }
}

impl Routes {
    pub fn make(&self) -> (r: String)
        ensures
            r@ == route_path(*self),
    {
        let s: &str = match self {
            Routes::Login => "/login",
            Routes::Logout => "/logout",
            Routes::AddNetherPortalText => "/addnetherportaltext",
            Routes::UpdateNetherPortalText => "/savenetherportaltextchanges",
            Routes::SaveImageText => "/addnetherportalimagedetails",
            Routes::SaveImage => "/saveimage",
            Routes::DeleteImage => "/deleteimage",
            Routes::DeleteClientImage => "/deleteimagefromclient",
            Routes::GetNetherPortalBunch => "/getnetherportalstextinformation",
            Routes::GetNetherPortalImage => "/getnetherportalimage",
            Routes::GetNetherPortalImageNames => "/getnetherportalimagenames",
            Routes::AccessRights => "/getaccessrights",
            Routes::SessionTimeLeft => "/sessiontimeleft",
            Routes::EstimatedAmountNetherPortals => "/netherportalsestimatedamount",
        };
        s.to_owned()
    }
}

pub struct Urls {
    url: String,
}

impl Urls {
    /// The base address of this instance, scheme, host and port included.
    pub closed spec fn spec_url(self) -> Seq<char> {
        self.url@
    }

    /// A URL on the default host and port.
    pub fn default(route: Routes) -> (r: String)
        ensures
            r@ == "http://"@ + "localhost"@ + ":"@ + "8334"@ + route_path(route),
    {
        Urls::new(aws_public_dns(), text_server_port()).url(route)
    }

    /// A URL on the local development host and port.
    pub fn default_i(route: Routes) -> (r: String)
        ensures
            r@ == "http://"@ + "localhost"@ + ":"@ + "1234"@ + route_path(route),
    {
        Urls::new("localhost".to_owned(), "1234".to_owned()).url(route)
    }

    pub fn new(public_dns: String, port: String) -> (r: Urls)
        ensures
            r.spec_url() == "http://"@ + public_dns@ + ":"@ + port@,
    {
        let mut url: String = "http://".to_owned();
        url.append(public_dns.as_str());
        url.append(":");
        url.append(port.as_str());
        Urls { url }
    }

    pub fn url(&self, route: Routes) -> (r: String)
        ensures
            r@ == self.spec_url() + route_path(route),
    {
        let mut r = self.url.clone();
        let path = route.make();
        r.append(path.as_str());
        r
    }
}

/// The host the text server answers on.
pub fn aws_public_dns() -> (r: String)
    ensures
        r@ == "localhost"@,
{
    "localhost".to_owned()
}

/// The port the text server answers on.
pub fn text_server_port() -> (r: String)
    ensures
        r@ == "8334"@,
{
    "8334".to_owned()
}

/// The message reported when the server denies a request.
pub open spec fn denied_message(status: u16) -> Seq<char> {
    "Request Denied... "@ + "status code: -> |"@ + int_chars(status as int) + "|"@
}

/// The message reported for any other unexpected status.
pub open spec fn not_approved_message(status: u16) -> Seq<char> {
    "Request was not aproved: "@ + "status code: -> |"@ + int_chars(status as int) + "|"@
}

fn status_pattern(status: u16) -> (r: String)
    ensures
        r@ == "status code: -> |"@ + int_chars(status as int) + "|"@,
{
    let mut r: String = "status code: -> |".to_owned();
    let num = i64_to_string(status as i64);
    r.append(num.as_str());
    r.append("|");
    proof {
        reveal_strlit("|");
    }
    r
}

/// Classifies a response status: 202 is acceptance, 403 a denial, anything
/// else an unexpected failure, each with its message.
pub fn status_check(status: u16) -> (r: Result<(), ErrorX>)
    ensures
        status == 202 <==> r is Ok,
        status == 403 ==> (r matches Err(e) && e.spec_details() == denied_message(status)),
        status != 202 && status != 403 ==> (r matches Err(e) && e.spec_details()
            == not_approved_message(status)),
{
    if status == 202 {
        Ok(())
    } else if status == 403 {
        let mut msg: String = "Request Denied... ".to_owned();
        let pattern = status_pattern(status);
        msg.append(pattern.as_str());
        Err(ErrorX::from_string(msg))
    } else {
        let mut msg: String = "Request was not aproved: ".to_owned();
        let pattern = status_pattern(status);
        msg.append(pattern.as_str());
        Err(ErrorX::from_string(msg))
    }
}


/// The message for a denial, the server's reason included.
pub open spec fn denied_reason_message(status: u16, reason: Seq<char>) -> Seq<char> {
    "Request Denied... "@ + "status code: -> |"@ + int_chars(status as int) + "|"@ + "\n"@
        + "Reason: -> |"@ + reason + "|"@ + "\n"@
}

/// The message for any other unexpected status, the server's reason included.
pub open spec fn not_approved_reason_message(status: u16, reason: Seq<char>) -> Seq<char> {
    "Request was not aproved: "@ + "status code: -> |"@ + int_chars(status as int) + "|"@ + "\n"@
        + "Reason: -> |"@ + reason + "|"@ + "\n"@
}

fn reason_pattern(reason: &str) -> (r: String)
    ensures
        r@ == "\n"@ + "Reason: -> |"@ + reason@ + "|"@ + "\n"@,
{
    let mut r: String = "\n".to_owned();
    r.append("Reason: -> |");
    r.append(reason);
    r.append("|");
    r.append("\n");
    r
}

/// Classifies a response status together with the reason text read from the
/// response body: the save path's tri-state of accepted, denied with the
/// server's reason, and any other failure with the reason.
pub fn status_check_reason(status: u16, reason: &str) -> (r: Result<(), ErrorX>)
    ensures
        status == 202 <==> r is Ok,
        status == 403 ==> (r matches Err(e) && e.spec_details() == denied_reason_message(
            status,
            reason@,
        )),
        status != 202 && status != 403 ==> (r matches Err(e) && e.spec_details()
            == not_approved_reason_message(status, reason@)),
{
    if status == 202 {
        Ok(())
    } else if status == 403 {
        let mut msg: String = "Request Denied... ".to_owned();
        let pattern = status_pattern(status);
        msg.append(pattern.as_str());
        let tail = reason_pattern(reason);
        msg.append(tail.as_str());
        proof {
            assert(msg@ =~= denied_reason_message(status, reason@));
        }
        Err(ErrorX::from_string(msg))
    } else {
        let mut msg: String = "Request was not aproved: ".to_owned();
        let pattern = status_pattern(status);
        msg.append(pattern.as_str());
        let tail = reason_pattern(reason);
        msg.append(tail.as_str());
        proof {
            assert(msg@ =~= not_approved_reason_message(status, reason@));
        }
        Err(ErrorX::from_string(msg))
    }
}

} // verus!
