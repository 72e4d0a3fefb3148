//! Rendering of introspection documents, stated as text over the registry's
//! contents and built to match.
use vstd::prelude::*;
use vstd::string::StringExecFns;
use crate::interface::{Annotation, Argument, Interface, Method, Property, PropertyAccess, Signal};
use crate::name_map::NameMap;

verus! {

pub open spec fn annotation_xml(indent: Seq<char>, a: Annotation) -> Seq<char> {
    indent + "<annotation name=\""@ + a.name@ + "\" value=\""@ + a.value@ + "\" />\n"@
}

/// The first `n` annotations, each on a line at `indent`.
pub open spec fn annotations_xml(indent: Seq<char>, anns: Seq<Annotation>, n: int) -> Seq<char>
    decreases n,
{
    if n <= 0 {
        Seq::empty()
    } else {
        annotations_xml(indent, anns, n - 1) + annotation_xml(indent, anns[n - 1])
    }
}

pub open spec fn arg_xml(indent: Seq<char>, direction: Seq<char>, a: Argument) -> Seq<char> {
    indent + "<arg name=\""@ + a.name@ + "\" type=\""@ + a.signature@ + "\" direction=\""@ + direction
        + "\" />\n"@
}

/// The first `n` arguments, each on a line at `indent`, tagged `direction`.
pub open spec fn args_xml(indent: Seq<char>, direction: Seq<char>, args: Seq<Argument>, n: int) -> Seq<
    char,
>
    decreases n,
{
    if n <= 0 {
        Seq::empty()
    } else {
        args_xml(indent, direction, args, n - 1) + arg_xml(indent, direction, args[n - 1])
    }
}

pub open spec fn access_text(a: PropertyAccess) -> Seq<char> {
    match a {
        PropertyAccess::ReadOnly(_) => "read"@,
        PropertyAccess::ReadWrite(_) => "readwrite"@,
        PropertyAccess::WriteOnly(_) => "write"@,
    }
}

pub open spec fn property_xml(indent: Seq<char>, name: Seq<char>, p: Property) -> Seq<char> {
    indent + "<property name=\""@ + name + "\" type=\""@ + p.signature.0@ + "\" access=\""@ + access_text(
        p.access,
    ) + "\">\n"@ + annotations_xml(indent + " "@, p.anns@, p.anns@.len() as int) + indent
        + "</property>\n"@
}

pub open spec fn method_xml(indent: Seq<char>, name: Seq<char>, m: Method) -> Seq<char> {
    indent + "<method name=\""@ + name + "\">\n"@ + args_xml(indent + " "@, "in"@, m.in_args@, m.in_args@.len() as int)
        + args_xml(indent + " "@, "out"@, m.out_args@, m.out_args@.len() as int) + annotations_xml(
        indent + " "@,
        m.anns@,
        m.anns@.len() as int,
    ) + indent + "</method>\n"@
}

pub open spec fn signal_xml(indent: Seq<char>, name: Seq<char>, s: Signal) -> Seq<char> {
    indent + "<signal name=\""@ + name + "\">\n"@ + args_xml(indent + " "@, "out"@, s.args@, s.args@.len() as int)
        + annotations_xml(indent + " "@, s.anns@, s.anns@.len() as int) + indent + "</signal>\n"@
}

pub open spec fn properties_xml(indent: Seq<char>, ps: NameMap<Property>, n: int) -> Seq<char>
    decreases n,
{
    if n <= 0 {
        Seq::empty()
    } else {
        properties_xml(indent, ps, n - 1) + property_xml(indent, ps.keys()[n - 1], ps.vals()[n - 1])
    }
}

pub open spec fn methods_xml(indent: Seq<char>, ms: NameMap<Method>, n: int) -> Seq<char>
    decreases n,
{
    if n <= 0 {
        Seq::empty()
    } else {
        methods_xml(indent, ms, n - 1) + method_xml(indent, ms.keys()[n - 1], ms.vals()[n - 1])
    }
}

pub open spec fn signals_xml(indent: Seq<char>, ss: NameMap<Signal>, n: int) -> Seq<char>
    decreases n,
{
    if n <= 0 {
        Seq::empty()
    } else {
        signals_xml(indent, ss, n - 1) + signal_xml(indent, ss.keys()[n - 1], ss.vals()[n - 1])
    }
}

/// An interface's section: its properties, then its methods, then its
/// signals, each in entry order, one level deeper than `indent`.
pub open spec fn interface_xml(indent: Seq<char>, name: Seq<char>, i: Interface) -> Seq<char> {
    indent + "<interface name=\""@ + name + "\">\n"@ + properties_xml(
        indent + " "@,
        i.properties,
        i.properties.keys().len() as int,
    ) + methods_xml(indent + " "@, i.methods, i.methods.keys().len() as int) + signals_xml(
        indent + " "@,
        i.signals,
        i.signals.keys().len() as int,
    ) + indent + "</interface>\n"@
}

/// One section per interface among the first `n`, in entry order.
pub open spec fn interfaces_xml(ifaces: NameMap<Interface>, n: int) -> Seq<char>
    decreases n,
{
    if n <= 0 {
        Seq::empty()
    } else {
        interfaces_xml(ifaces, n - 1) + interface_xml(" "@, ifaces.keys()[n - 1], ifaces.vals()[n - 1])
    }
}

pub open spec fn child_xml(name: Seq<char>) -> Seq<char> {
    " <node name=\""@ + name + "\" />\n"@
}

/// A reference per child among the first `n`, in order.
pub open spec fn children_xml(children: Seq<String>, n: int) -> Seq<char>
    decreases n,
{
    if n <= 0 {
        Seq::empty()
    } else {
        children_xml(children, n - 1) + child_xml(children[n - 1]@)
    }
}

pub open spec fn doc_header() -> Seq<char> {
    "<!DOCTYPE node PUBLIC \"-//freedesktop//DTD D-BUS Object Introspection 1.0//EN\"\n \"http://www.freedesktop.org/standards/dbus/1.0/introspect.dtd\">\n<node>\n"@
}

/// The whole document for a registry holding `ifaces`, with the child
/// objects `children`.
pub open spec fn document_xml(ifaces: NameMap<Interface>, children: Seq<String>) -> Seq<char> {
    doc_header() + interfaces_xml(ifaces, ifaces.keys().len() as int) + children_xml(
        children,
        children.len() as int,
    ) + "</node>\n"@
}

fn deeper(indent: &str) -> (r: String)
    ensures
        r@ == indent@ + " "@,
{
    let mut r = indent.to_owned();
    r.append(" ");
    r
}

fn render_annotations(out: &mut String, indent: &str, anns: &Vec<Annotation>)
    ensures
        final(out)@ == old(out)@ + annotations_xml(indent@, anns@, anns@.len() as int),
{
    let ghost base = out@;
    let mut i: usize = 0;
    while i < anns.len()
        invariant
            i <= anns@.len(),
            out@ == base + annotations_xml(indent@, anns@, i as int),
        decreases anns@.len() - i,
    {
        let a = &anns[i];
        out.append(indent);
        out.append("<annotation name=\"");
        out.append(a.name.as_str());
        out.append("\" value=\"");
        out.append(a.value.as_str());
        out.append("\" />\n");
        i = i + 1;
        assert(out@ =~= base + annotations_xml(indent@, anns@, i as int));
    }
}

fn render_args(out: &mut String, indent: &str, direction: &str, args: &Vec<Argument>)
    ensures
        final(out)@ == old(out)@ + args_xml(indent@, direction@, args@, args@.len() as int),
{
    let ghost base = out@;
    let mut i: usize = 0;
    while i < args.len()
        invariant
            i <= args@.len(),
            out@ == base + args_xml(indent@, direction@, args@, i as int),
        decreases args@.len() - i,
    {
        let a = &args[i];
        out.append(indent);
        out.append("<arg name=\"");
        out.append(a.name.as_str());
        out.append("\" type=\"");
        out.append(a.signature.as_str());
        out.append("\" direction=\"");
        out.append(direction);
        out.append("\" />\n");
        i = i + 1;
        assert(out@ =~= base + args_xml(indent@, direction@, args@, i as int));
    }
}

fn access_str(a: &PropertyAccess) -> (r: &'static str)
    ensures
        r@ == access_text(*a),
{
    match a {
        PropertyAccess::ReadOnly(_) => "read",
        PropertyAccess::ReadWrite(_) => "readwrite",
        PropertyAccess::WriteOnly(_) => "write",
    }
}

fn render_property(out: &mut String, indent: &str, name: &str, p: &Property)
    ensures
        final(out)@ == old(out)@ + property_xml(indent@, name@, *p),
{
    let ghost base = out@;
    let inner = deeper(indent);
    out.append(indent);
    out.append("<property name=\"");
    out.append(name);
    out.append("\" type=\"");
    out.append(p.signature.0.as_str());
    out.append("\" access=\"");
    out.append(access_str(&p.access));
    out.append("\">\n");
    render_annotations(out, inner.as_str(), &p.anns);
    out.append(indent);
    out.append("</property>\n");
    assert(out@ =~= base + property_xml(indent@, name@, *p));
}

fn render_method(out: &mut String, indent: &str, name: &str, m: &Method)
    ensures
        final(out)@ == old(out)@ + method_xml(indent@, name@, *m),
{
    let ghost base = out@;
    let inner = deeper(indent);
    out.append(indent);
    out.append("<method name=\"");
    out.append(name);
    out.append("\">\n");
    render_args(out, inner.as_str(), "in", &m.in_args);
    render_args(out, inner.as_str(), "out", &m.out_args);
    render_annotations(out, inner.as_str(), &m.anns);
    out.append(indent);
    out.append("</method>\n");
    assert(out@ =~= base + method_xml(indent@, name@, *m));
}

fn render_signal(out: &mut String, indent: &str, name: &str, s: &Signal)
    ensures
        final(out)@ == old(out)@ + signal_xml(indent@, name@, *s),
{
    let ghost base = out@;
    let inner = deeper(indent);
    out.append(indent);
    out.append("<signal name=\"");
    out.append(name);
    out.append("\">\n");
    render_args(out, inner.as_str(), "out", &s.args);
    render_annotations(out, inner.as_str(), &s.anns);
    out.append(indent);
    out.append("</signal>\n");
    assert(out@ =~= base + signal_xml(indent@, name@, *s));
}

fn render_properties(out: &mut String, indent: &str, ps: &NameMap<Property>)
    ensures
        final(out)@ == old(out)@ + properties_xml(indent@, *ps, ps.keys().len() as int),
{
    let ghost base = out@;
    let n = ps.len();
    let mut i: usize = 0;
    while i < n
        invariant
            n == ps.keys().len(),
            i <= n,
            out@ == base + properties_xml(indent@, *ps, i as int),
        decreases n - i,
    {
        render_property(out, indent, ps.name_at(i).as_str(), ps.value_at(i));
        i = i + 1;
        assert(out@ =~= base + properties_xml(indent@, *ps, i as int));
    }
}

fn render_methods(out: &mut String, indent: &str, ms: &NameMap<Method>)
    ensures
        final(out)@ == old(out)@ + methods_xml(indent@, *ms, ms.keys().len() as int),
{
    let ghost base = out@;
    let n = ms.len();
    let mut i: usize = 0;
    while i < n
        invariant
            n == ms.keys().len(),
            i <= n,
            out@ == base + methods_xml(indent@, *ms, i as int),
        decreases n - i,
    {
        render_method(out, indent, ms.name_at(i).as_str(), ms.value_at(i));
        i = i + 1;
        assert(out@ =~= base + methods_xml(indent@, *ms, i as int));
    }
}

fn render_signals(out: &mut String, indent: &str, ss: &NameMap<Signal>)
    ensures
        final(out)@ == old(out)@ + signals_xml(indent@, *ss, ss.keys().len() as int),
{
    let ghost base = out@;
    let n = ss.len();
    let mut i: usize = 0;
    while i < n
        invariant
            n == ss.keys().len(),
            i <= n,
            out@ == base + signals_xml(indent@, *ss, i as int),
        decreases n - i,
    {
        render_signal(out, indent, ss.name_at(i).as_str(), ss.value_at(i));
        i = i + 1;
        assert(out@ =~= base + signals_xml(indent@, *ss, i as int));
    }
}

fn render_interface(out: &mut String, indent: &str, name: &str, iface: &Interface)
    ensures
        final(out)@ == old(out)@ + interface_xml(indent@, name@, *iface),
{
    let ghost base = out@;
    let inner = deeper(indent);
    out.append(indent);
    out.append("<interface name=\"");
    out.append(name);
    out.append("\">\n");
    render_properties(out, inner.as_str(), &iface.properties);
    render_methods(out, inner.as_str(), &iface.methods);
    render_signals(out, inner.as_str(), &iface.signals);
    out.append(indent);
    out.append("</interface>\n");
    assert(out@ =~= base + interface_xml(indent@, name@, *iface));
}

/// The introspection document of a registry holding `ifaces`, with the child
/// objects `children`.
pub fn render_document(ifaces: &NameMap<Interface>, children: &Vec<String>) -> (r: String)
    ensures
        r@ == document_xml(*ifaces, children@),
{
    let mut out = "<!DOCTYPE node PUBLIC \"-//freedesktop//DTD D-BUS Object Introspection 1.0//EN\"\n \"http://www.freedesktop.org/standards/dbus/1.0/introspect.dtd\">\n<node>\n".to_owned();
    let n = ifaces.len();
    let mut i: usize = 0;
    while i < n
        invariant
            n == ifaces.keys().len(),
            i <= n,
            out@ == doc_header() + interfaces_xml(*ifaces, i as int),
        decreases n - i,
    {
        render_interface(&mut out, " ", ifaces.name_at(i).as_str(), ifaces.value_at(i));
        i = i + 1;
        assert(out@ =~= doc_header() + interfaces_xml(*ifaces, i as int));
    }
    let ghost mid = out@;
    let mut j: usize = 0;
    while j < children.len()
        invariant
            j <= children@.len(),
            out@ == mid + children_xml(children@, j as int),
        decreases children@.len() - j,
    {
        out.append(" <node name=\"");
        out.append(children[j].as_str());
        out.append("\" />\n");
        j = j + 1;
        assert(out@ =~= mid + children_xml(children@, j as int));
    }
    out.append("</node>\n");
    assert(out@ =~= document_xml(*ifaces, children@));
    out
}

} // verus!
