//! Database provisioning plans. The external collaborator (a container
//! runtime or a local database file) does the work; this module decides,
//! from the manifest's database section, exactly what to ask of it.

use vstd::prelude::*;
use crate::strutil::str_eq;
use crate::types::DatabaseSection;

verus! {

/// What the provisioning collaborator is asked to do.
#[derive(Debug)]
pub enum ProvisionPlan {
    /// Run a PostgreSQL container under this name with these credentials,
    /// publishing the requested port (the runner may shift to a free one).
    Postgres {
        container: String,
        db_name: String,
        user: String,
        password: String,
        port: u16,
        preseed: Option<String>,
    },
    /// Run a MySQL container under this name with these credentials on
    /// this port.
    Mysql {
        container: String,
        db_name: String,
        user: String,
        password: String,
        port: u16,
        preseed: Option<String>,
    },
    /// Create this database file if missing and feed it the preseed.
    Sqlite { path: String, preseed: Option<String> },
}

/// An option's string view, or the given default.
pub open spec fn spec_or_default(o: Option<String>, d: Seq<char>) -> Seq<char> {
    match o {
        Some(s) => s@,
        None => d,
    }
}

/// The container name a managed database runs under.
pub open spec fn spec_container_name(db_name: Seq<char>) -> Seq<char> {
    "flare-"@ + db_name + "-db"@
}

fn or_default(o: &Option<String>, d: &str) -> (r: String)
    ensures
        r@ == spec_or_default(*o, d@),
{
    match o {
        Some(s) => s.clone(),
        None => d.to_owned(),
    }
}

fn container_name(db_name: &str) -> (r: String)
    ensures
        r@ == spec_container_name(db_name@),
{
    let mut out: String = "flare-".to_owned();
    out.append(db_name);
    out.append("-db");
    out
}

/// Plans the provisioning of the declared database inside the app's
/// directory: each engine fills in its documented default name, user,
/// password and port; anything undeclared fails with its name in the
/// message.
pub fn setup(db: &DatabaseSection, dir: &str) -> (r: Result<ProvisionPlan, String>)
    ensures
        db.kind@ == "postgres"@ ==> (r matches Ok(p) && p matches ProvisionPlan::Postgres {
            container,
            db_name,
            user,
            password,
            port,
            preseed,
        } && container@ == spec_container_name(spec_or_default(db.name, "postgres"@)) && db_name@
            == spec_or_default(db.name, "postgres"@) && user@ == spec_or_default(
            db.user,
            "postgres"@,
        ) && password@ == spec_or_default(db.password, "password"@) && port == match db.port {
            Some(p) => p,
            None => 5432u16,
        } && preseed == db.preseed),
        db.kind@ == "mysql"@ ==> (r matches Ok(p) && p matches ProvisionPlan::Mysql {
            container,
            db_name,
            user,
            password,
            port,
            preseed,
        } && container@ == spec_container_name(spec_or_default(db.name, "mysql"@)) && db_name@
            == spec_or_default(db.name, "mysql"@) && user@ == spec_or_default(db.user, "root"@)
            && password@ == spec_or_default(db.password, "password"@) && port == match db.port {
            Some(p) => p,
            None => 3306u16,
        } && preseed == db.preseed),
        db.kind@ == "sqlite"@ ==> (r matches Ok(p) && p matches ProvisionPlan::Sqlite {
            path,
            preseed,
        } && path@ == dir@ + "/"@ + spec_or_default(db.name, "app.db"@) && preseed == db.preseed),
        (db.kind@ != "postgres"@ && db.kind@ != "mysql"@ && db.kind@ != "sqlite"@) ==> (r matches
            Err(m) && m@ == "Unknown database: "@ + db.kind@),
{
    proof {
        reveal_strlit("postgres");
        reveal_strlit("mysql");
        reveal_strlit("sqlite");
        // The three engine names all differ in length.
        assert("postgres"@.len() == 8);
        assert("mysql"@.len() == 5);
        assert("sqlite"@.len() == 6);
    }
    if str_eq(db.kind.as_str(), "postgres") {
        let db_name = or_default(&db.name, "postgres");
        let container = container_name(db_name.as_str());
        let user = or_default(&db.user, "postgres");
        let password = or_default(&db.password, "password");
        let port = match db.port {
            Some(p) => p,
            None => 5432,
        };
        Ok(
            ProvisionPlan::Postgres {
                container,
                db_name,
                user,
                password,
                port,
                preseed: db.preseed.clone(),
            },
        )
    } else if str_eq(db.kind.as_str(), "mysql") {
        let db_name = or_default(&db.name, "mysql");
        let container = container_name(db_name.as_str());
        let user = or_default(&db.user, "root");
        let password = or_default(&db.password, "password");
        let port = match db.port {
            Some(p) => p,
            None => 3306,
        };
        Ok(
            ProvisionPlan::Mysql {
                container,
                db_name,
                user,
                password,
                port,
                preseed: db.preseed.clone(),
            },
        )
    } else if str_eq(db.kind.as_str(), "sqlite") {
        let name = or_default(&db.name, "app.db");
        let mut path: String = dir.to_owned();
        path.append("/");
        path.append(name.as_str());
        Ok(ProvisionPlan::Sqlite { path, preseed: db.preseed.clone() })
    } else {
        let mut m: String = "Unknown database: ".to_owned();
        m.append(db.kind.as_str());
        Err(m)
    }
}

} // verus!
