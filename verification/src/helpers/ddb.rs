//! What goes to the database and what comes back from it: the connection
//! address, the query texts, the values of the inserts, and the records made
//! from the rows that the queries return.
use vstd::prelude::*;
use crate::helpers::text::{append_decimal, decimal, join_commas, join_with, lemma_split_join, split_commas, split_on, texts};
use crate::models::task::{GetTask, SetTask};
use crate::models::user::{role_name, role_named, lemma_role_name_read_back, GetUser, Role, SetUser, User};

verus! {

/// Creates the table of tasks when it does not exist. Besides the columns
/// that storing a task writes, it holds the `description` and `author_id`
/// that `task_query` reads back.
pub const TASKS_TABLE: &'static str = "CREATE TABLE IF NOT EXISTS tasks (`id` INT NOT NULL AUTO_INCREMENT, `name` VARCHAR(200) NOT NULL, `variables` JSON NULL, `functions` JSON NULL, `tasks` JSON NOT NULL, `params` TEXT NULL, `has_encryption` BIT NOT NULL, `description` TEXT NULL, `author_id` VARCHAR(200) NULL, UNIQUE INDEX `name_UNIQUE` (`name` ASC) VISIBLE, PRIMARY KEY (`id`))";

/// Creates the table of users when it does not exist.
pub const USERS_TABLE: &'static str = "CREATE TABLE IF NOT EXISTS `users` (`id` bigint unsigned NOT NULL AUTO_INCREMENT, `email` varchar(191) COLLATE utf8mb4_bin DEFAULT NULL, `password` longtext COLLATE utf8mb4_bin, `username` varchar(191) COLLATE utf8mb4_bin DEFAULT NULL, `role` varchar(191) COLLATE utf8mb4_bin DEFAULT 'User', `verified` tinyint(1) DEFAULT '0', `last_login` bigint DEFAULT NULL, `code_value` varchar(191) COLLATE utf8mb4_bin DEFAULT NULL, `code_expires_at` bigint DEFAULT NULL, `login_session` varchar(191) COLLATE utf8mb4_bin DEFAULT NULL, PRIMARY KEY (`id`), UNIQUE KEY `email` (`email`), UNIQUE KEY `username` (`username`), UNIQUE KEY `code_value` (`code_value`)) ENGINE=InnoDB AUTO_INCREMENT=1 DEFAULT CHARSET=utf8mb4 COLLATE=utf8mb4_bin";

/// Stores a task; its named parameters are the fields of a `TaskInsert`.
pub const TASK_INSERT: &'static str = "INSERT INTO tasks (name, variables, functions, tasks, params, has_encryption, description, author_id) VALUES (:name, :variables, :functions, :tasks, :params, :has_encryption, :description, :author_id)";

/// Stores a user; its named parameters are the fields of a `UserInsert`.
pub const USER_INSERT: &'static str = "INSERT INTO users (username, role, password, email, login_session) VALUES (:username, :role, :password, :email, :login_session)";

/// Writes a user's session; its named parameters are the fields of a
/// `SessionUpdate`.
pub const SESSION_UPDATE: &'static str = "UPDATE users SET login_session=:login_session WHERE username=:username LIMIT 1";

/// Reads the full record of the user whose name or e-mail address is the
/// named parameter `uoe`, in the column order that `user_from_row` takes.
pub const USER_BY_NAME_OR_EMAIL: &'static str = "SELECT username, role, login_session, email, id, password FROM users WHERE username=:uoe OR email=:uoe";

/// The address of the MySQL database on this host.
pub fn connection_url(db_user: &str, db_pass: &str, db_port: &str, db_name: &str) -> (url: String)
    ensures
        url@ == "mysql://"@ + db_user@ + ":"@ + db_pass@ + "@localhost:"@ + db_port@ + "/"@ + db_name@,
{
    let mut url = String::from_str("mysql://");
    url.append(db_user);
    url.append(":");
    url.append(db_pass);
    url.append("@localhost:");
    url.append(db_port);
    url.append("/");
    url.append(db_name);
    url
}

/// The query that reads the task of the given name.
pub fn task_query(name: &str) -> (query: String)
    ensures
        query@ == "SELECT name, params, has_encryption, author_id, description FROM tasks WHERE name = \""@
            + name@ + "\""@,
{
    let mut query = String::from_str(
        "SELECT name, params, has_encryption, author_id, description FROM tasks WHERE name = \"",
    );
    query.append(name);
    query.append("\"");
    query
}

/// The query that reads the user of the given id.
pub fn user_by_id_query(id: u32) -> (query: String)
    ensures
        query@ == "SELECT username, role, login_session FROM users WHERE id = \""@ + decimal(id as nat)
            + "\""@,
{
    let mut query = String::from_str("SELECT username, role, login_session FROM users WHERE id = \"");
    append_decimal(&mut query, id);
    query.append("\"");
    query
}

/// The query that reads the user of the given name.
pub fn user_by_name_query(name: &str) -> (query: String)
    ensures
        query@ == "SELECT username, role, login_session FROM users WHERE username = \""@ + name@
            + "\""@,
{
    let mut query = String::from_str(
        "SELECT username, role, login_session FROM users WHERE username = \"",
    );
    query.append(name);
    query.append("\"");
    query
}

/// The values that storing a task writes.
#[derive(Debug)]
pub struct TaskInsert {
    pub name: String,
    pub variables: String,
    pub functions: String,
    pub tasks: String,
    pub params: String,
    pub has_encryption: bool,
    pub description: String,
    pub author_id: String,
}

/// The values that storing `task` writes: its fields, with the parameter
/// list joined by commas.
pub fn task_insert(task: SetTask) -> (row: TaskInsert)
    ensures
        row.name@ == task.name@,
        row.variables@ == task.variables@,
        row.functions@ == task.functions@,
        row.tasks@ == task.tasks@,
        row.params@ == join_with(texts(task.params@), ','),
        row.has_encryption == task.has_encryption,
        row.description@ == task.description@,
        row.author_id@ == task.author_id@,
{
    let params = join_commas(&task.params);
    TaskInsert {
        name: task.name,
        variables: task.variables,
        functions: task.functions,
        tasks: task.tasks,
        params,
        has_encryption: task.has_encryption,
        description: task.description,
        author_id: task.author_id,
    }
}

/// The values that storing a new user writes.
#[derive(Debug)]
pub struct UserInsert {
    pub username: String,
    pub role: String,
    pub password: String,
    pub email: String,
    pub login_session: String,
}

/// The values that storing `user` writes: a new user has the role `User` and
/// no session.
pub fn user_insert(user: SetUser) -> (row: UserInsert)
    ensures
        row.username@ == user.username@,
        row.role@ == role_name(Role::User),
        row.password@ == user.password@,
        row.email@ == user.email@,
        row.login_session@.len() == 0,
{
    UserInsert {
        username: user.username,
        role: Role::User.to_string(),
        password: user.password,
        email: user.email,
        login_session: String::new(),
    }
}

/// The task that a row read by `task_query` describes: the stored parameter
/// text is split at its commas.
pub fn task_from_row(
    name: String,
    params: String,
    has_encryption: bool,
    author_id: String,
    description: String,
) -> (task: GetTask)
    ensures
        task.name@ == name@,
        texts(task.params@) == split_on(params@, ','),
        task.has_encryption == has_encryption,
        task.author_id@ == author_id@,
        task.description@ == description@,
{
    let params = split_commas(params.as_str());
    GetTask { name, params, has_encryption, author_id, description }
}

/// The role a stored text names; a text that names none counts as `User`.
pub open spec fn stored_role(text: Seq<char>) -> Role {
    match role_named(text) {
        Some(role) => role,
        None => Role::User,
    }
}

/// Reads a stored role text.
fn role_of_row(text: &str) -> (role: Role)
    ensures
        role == stored_role(text@),
{
    match Role::from_str(text) {
        Ok(role) => role,
        Err(_) => Role::User,
    }
}

/// The user that a row read by `user_by_id_query` or `user_by_name_query` describes.
pub fn get_user_from_row(username: String, role: String, login_session: String) -> (user: GetUser)
    ensures
        user.username@ == username@,
        user.role == stored_role(role@),
        user.login_session@ == login_session@,
{
    let role = role_of_row(role.as_str());
    GetUser { username, role, login_session }
}

/// The full user record that a row read for a login describes.
pub fn user_from_row(
    username: String,
    role: String,
    login_session: String,
    email: String,
    id: i32,
    password: String,
) -> (user: User)
    ensures
        user.username@ == username@,
        user.role == stored_role(role@),
        user.login_session@ == login_session@,
        user.email@ == email@,
        user.id == id,
        user.password@ == password@,
{
    let role = role_of_row(role.as_str());
    User { id, username, role, password, email, login_session }
}

/// The first row of a query's answer, or `Err` when there is none.
pub fn first_row<T>(rows: Vec<T>) -> (first: Result<T, ()>)
    ensures
        first == (if rows@.len() > 0 {
            Ok(rows@[0])
        } else {
            Err(())
        }),
{
    let mut rows = rows;
    if rows.len() == 0 {
        Err(())
    } else {
        Ok(rows.swap_remove(0))
    }
}

/// Law: the parameters of a stored task are read back unchanged, when the
/// list is not empty and no parameter holds a comma.
pub proof fn lemma_task_params_read_back(task: SetTask, row: TaskInsert, read: GetTask)
    requires
        row.params@ == join_with(texts(task.params@), ','),
        texts(read.params@) == split_on(row.params@, ','),
        task.params@.len() >= 1,
        forall|i: int| 0 <= i < task.params@.len() ==> !(#[trigger] task.params@[i])@.contains(','),
    ensures
        texts(read.params@) == texts(task.params@),
{
    let items = texts(task.params@);
    assert forall|i: int| 0 <= i < items.len() implies !(#[trigger] items[i]).contains(',') by {
        assert(items[i] == task.params@[i]@);
    }
    lemma_split_join(items, ',');
}

/// Law: a new user is read back with the role `User`.
pub proof fn lemma_new_user_role_read_back(row: UserInsert, read: GetUser)
    requires
        row.role@ == role_name(Role::User),
        read.role == stored_role(row.role@),
    ensures
        read.role == Role::User,
{
    lemma_role_name_read_back(Role::User);
}

} // verus!
